use uninit_tools::buffer::{Buffer, BufferParts, BufferPartsMut};

#[test]
fn basic_buffer_ops() {
    let mut buffer = Buffer::uninit([0u8; 32]);
    assert_eq!(buffer.capacity(), 32);
    assert_eq!(buffer.remaining(), 32);
    assert!(buffer.is_empty());
    assert!(!buffer.is_full());
    assert!(buffer.initializer().is_completely_uninit());
    assert!(!buffer.initializer().is_completely_init());
    assert_eq!(buffer.initializer().items_initialized(), 0);
    assert_eq!(buffer.initializer().remaining(), 32);
    assert_eq!(buffer.filled_part(), &[]);
    assert_eq!(buffer.unfilled_part().len(), 32);
    assert_eq!(buffer.filled_part_mut(), &mut []);
    assert_eq!(buffer.unfilled_part_mut().len(), 32);

    let BufferParts {
        filled_part,
        unfilled_init_part,
        unfilled_uninit_part,
    } = buffer.all_parts();
    assert_eq!(filled_part, &[]);
    assert_eq!(unfilled_init_part, &[]);
    assert_eq!(unfilled_uninit_part.len(), 32);

    let BufferPartsMut {
        filled_part,
        unfilled_init_part,
        unfilled_uninit_part,
    } = buffer.all_parts_mut();
    assert_eq!(filled_part, &mut []);
    assert_eq!(unfilled_init_part, &mut []);
    assert_eq!(unfilled_uninit_part.len(), 32);

    let src = b"I am a really nice slice!";
    let modified = b"I am a really wise slice!";

    buffer.append(src);

    assert!(!buffer.is_empty());
    assert!(!buffer.is_full());
    assert_eq!(buffer.filled_part(), src);
    assert_eq!(buffer.filled_part_mut(), src);
    assert!(!buffer.initializer().is_completely_init());
    assert!(!buffer.initializer().is_completely_uninit());
    assert_eq!(buffer.initializer().init_part(), src);
    assert_eq!(buffer.initializer_mut().init_part_mut(), src);
    assert_eq!(buffer.items_filled(), src.len());
    assert_eq!(buffer.remaining(), 32 - src.len());

    {
        let slice_mut = buffer.filled_part_mut();
        slice_mut[14] = b'w';
        slice_mut[16] = b's';
    }

    assert!(!buffer.is_empty());
    assert!(!buffer.is_full());
    assert_eq!(buffer.filled_part(), modified);
    assert_eq!(buffer.filled_part_mut(), modified);
    assert_eq!(buffer.initializer().init_part(), modified);
    assert_eq!(buffer.initializer_mut().init_part_mut(), modified);
    assert_eq!(buffer.items_filled(), src.len());
    assert_eq!(buffer.remaining(), 32 - src.len());
    assert_eq!(buffer.unfilled_part().len(), 32 - src.len());
    assert_eq!(buffer.unfilled_part_mut().len(), 32 - src.len());

    let mut initializer = buffer.into_initializer();

    assert_eq!(initializer.items_initialized(), modified.len());
    assert_eq!(initializer.remaining(), 7);
    initializer.partially_fill_uninit_part(3_usize, 0xFF_u8);
    initializer.partially_zero_uninit_part(1_usize);
    assert_eq!(initializer.remaining(), 3);

    let modified_and_garbage_items = b"I am a really wise slice!\xFF\xFF\xFF\x00";
    let (init, uninit) = initializer.init_uninit_parts();
    assert_eq!(init, modified_and_garbage_items);
    assert_eq!(uninit.len(), 3);

    let (init, uninit) = initializer.init_uninit_parts_mut();
    assert_eq!(init, modified_and_garbage_items);
    init[2] = b'e';
    assert_eq!(uninit.len(), 3);

    let mut buffer = Buffer::from_initializer(initializer);
    buffer.advance(modified.len());

    let BufferParts {
        filled_part,
        unfilled_init_part,
        unfilled_uninit_part,
    } = buffer.all_parts();
    let modified_again = b"I em a really wise slice!";
    assert_eq!(filled_part, modified_again);
    assert_eq!(unfilled_init_part, b"\xFF\xFF\xFF\x00");
    assert_eq!(unfilled_uninit_part.len(), 3);

    let BufferPartsMut {
        filled_part,
        unfilled_init_part,
        unfilled_uninit_part,
    } = buffer.all_parts_mut();
    assert_eq!(filled_part, modified_again);
    assert_eq!(unfilled_init_part, b"\xFF\xFF\xFF\x00");
    unfilled_init_part[2] = b'\x13';
    unfilled_init_part[3] = b'\x37';
    assert_eq!(unfilled_init_part, b"\xFF\xFF\x13\x37");
    assert_eq!(unfilled_uninit_part.len(), 3);

    let rest = b" Right?";
    buffer.append(rest);

    assert_eq!(buffer.items_filled(), 32);
    assert!(!buffer.is_empty());
    assert!(buffer.is_full());
    assert_eq!(buffer.remaining(), 0);

    let total = b"I em a really wise slice! Right?";
    assert_eq!(buffer.filled_part(), total);
    assert_eq!(buffer.filled_part_mut(), total);
    assert_eq!(buffer.initializer().remaining(), 0);
    assert_eq!(buffer.initializer().items_initialized(), 32);
    assert!(buffer.initializer().is_completely_init());
    assert!(!buffer.initializer().is_completely_uninit());

    buffer.advance_to_init_part();

    let initialized: [u8; 32] = buffer
        .into_initializer()
        .try_into_init()
        .unwrap()
        .into_inner();
    assert_eq!(&initialized, total);
}

#[test]
fn debug_impl() {
    let array = [0u8; 32];
    let mut buffer = Buffer::uninit(array);
    buffer.append(b"Hello, world!");
    buffer.initializer_mut().partially_zero_uninit_part(13);

    assert_eq!(buffer.summary(), "13/26/32");
    assert_eq!(
        buffer.summary_detailed(),
        "13 B filled (40.6%), 26 B init (81.2%), 32 B total"
    );
}

#[test]
fn summary_of_empty_region() {
    let buffer = Buffer::uninit(Vec::<u8>::new());
    assert_eq!(buffer.summary(), "0/0/0");
    assert_eq!(
        buffer.summary_detailed(),
        "0 B filled (0.0%), 0 B init (0.0%), 0 B total"
    );
}

#[test]
fn summary_rounds_up_past_half() {
    let mut buffer = Buffer::uninit([0u8; 3]);
    buffer.append(b"ab");
    assert_eq!(buffer.summary(), "2/2/3");
    assert_eq!(
        buffer.summary_detailed(),
        "2 B filled (66.7%), 2 B init (66.7%), 3 B total"
    );
}

#[test]
fn summary_rounds_ties_to_even() {
    let mut buffer = Buffer::uninit([0u8; 16]);
    buffer.append(b"x");
    assert_eq!(
        buffer.summary_detailed(),
        "1 B filled (6.2%), 1 B init (6.2%), 16 B total"
    );
}

#[test]
fn append_correctness() {
    let mut buffer = Buffer::uninit([0u8; 32]);
    buffer.append(b"hello ");
    buffer.append(b"world");
    assert_eq!(buffer.filled_part(), b"hello world");
    assert_eq!(buffer.items_filled(), 11);
    assert_eq!(buffer.remaining(), 32 - 11);
}

#[test]
fn append_boundary_fails_without_change() {
    let mut buffer = Buffer::uninit([0u8; 4]);
    buffer.append(b"ab");
    let before_filled = buffer.items_filled();
    let before_init = buffer.initializer().items_initialized();
    let before_contents: Vec<u8> = buffer.filled_part().to_vec();

    assert!(!buffer.try_append(b"cdefg"));

    assert_eq!(buffer.items_filled(), before_filled);
    assert_eq!(buffer.initializer().items_initialized(), before_init);
    assert_eq!(buffer.filled_part(), &before_contents[..]);

    assert!(buffer.try_append(b"cd"));
    assert_eq!(buffer.filled_part(), b"abcd");
}

#[test]
fn fill_by_repeating_fills_everything() {
    let mut buffer = Buffer::uninit([0u8; 16]);
    buffer.fill_by_repeating(0xFF);
    assert!(buffer.is_full());
    assert_eq!(buffer.items_filled(), 16);
    assert!(buffer.filled_part().iter().all(|b| *b == 0xFF));
}

#[test]
fn fill_by_zeroing_fills_everything() {
    let mut buffer = Buffer::uninit([7u8; 8]);
    buffer.append(b"yo");
    buffer.fill_by_zeroing();
    assert!(buffer.is_full());
    assert_eq!(buffer.filled_part(), b"yo\x00\x00\x00\x00\x00\x00");
}

#[test]
fn revert_keeps_initialized_data() {
    let mut buffer = Buffer::uninit([0u8; 8]);
    buffer.append(b"abc");
    buffer.revert_to_start();
    assert_eq!(buffer.items_filled(), 0);
    assert_eq!(buffer.initializer().items_initialized(), 3);
    assert_eq!(buffer.unfilled_init_part(), b"abc");
}

#[test]
fn partition_reconstructs_region() {
    let mut buffer = Buffer::uninit([0u8; 10]);
    buffer.append(b"abcdef");
    buffer.revert_to_start();
    buffer.advance(2);

    let parts = buffer.all_parts();
    assert_eq!(parts.filled_part, b"ab");
    assert_eq!(parts.unfilled_init_part, b"cdef");
    assert_eq!(parts.unfilled_uninit_part.len(), 4);
    assert_eq!(
        parts.filled_part.len() + parts.unfilled_init_part.len() + parts.unfilled_uninit_part.len(),
        buffer.capacity()
    );
}

#[test]
fn views_are_stable() {
    let mut buffer = Buffer::uninit([0u8; 8]);
    buffer.append(b"xyz");

    let first: Vec<u8> = buffer.filled_part().to_vec();
    let second: Vec<u8> = buffer.filled_part().to_vec();
    assert_eq!(first, second);

    let (a, b) = uninit_tools::buffer::filled_part_twice(&buffer);
    assert_eq!(a, b);

    let (p, q) = uninit_tools::buffer::all_parts_twice(&buffer);
    assert_eq!(p.filled_part, q.filled_part);
    assert_eq!(p.unfilled_init_part, q.unfilled_init_part);
    assert_eq!(p.unfilled_uninit_part, q.unfilled_uninit_part);
}

#[test]
fn round_trip_through_append() {
    let mut buffer = Buffer::uninit([0u8; 8]);
    buffer.append(b"abcd");
    buffer.append(b"efgh");
    assert!(buffer.is_full());
    buffer.advance_to_init_part();
    let initialized: [u8; 8] = buffer
        .into_initializer()
        .try_into_init()
        .unwrap()
        .into_inner();
    assert_eq!(&initialized, b"abcdefgh");
}

#[test]
fn round_trip_through_extract_filled() {
    let mut buffer = Buffer::uninit([0u8; 4]);
    buffer.append(b"data");
    let extracted = uninit_tools::buffer::extract_filled(buffer);
    let inner: [u8; 4] = extracted.unwrap().into_inner();
    assert_eq!(&inner, b"data");
}

#[test]
fn scenario_mutate_filled_part() {
    let mut buffer = Buffer::uninit([0u8; 32]);
    let src = b"I am a really nice slice!";
    buffer.append(src);
    assert_eq!(buffer.items_filled(), src.len());
    assert_eq!(buffer.remaining(), 32 - src.len());

    let filled = buffer.filled_part_mut();
    filled[14] = b'w';
    filled[16] = b's';
    assert_eq!(buffer.filled_part(), b"I am a really wise slice!");
}

#[test]
fn advance_only_moves_filled_cursor() {
    let mut buffer = Buffer::uninit([0u8; 8]);
    buffer.append(b"abcde");
    buffer.revert_to_start();
    buffer.advance(3);
    assert_eq!(buffer.items_filled(), 3);
    assert_eq!(buffer.initializer().items_initialized(), 5);
    assert_eq!(buffer.filled_part(), b"abc");
}

#[test]
fn advance_init_raises_both_cursors() {
    let mut buffer = Buffer::uninit([0u8; 8]);
    {
        let unfilled = buffer.unfilled_part_mut();
        unfilled[0] = b'q';
        unfilled[1] = b'r';
    }
    buffer.advance_init(2);
    assert_eq!(buffer.items_filled(), 2);
    assert_eq!(buffer.initializer().items_initialized(), 2);
    assert_eq!(buffer.filled_part(), b"qr");

    buffer.advance_init_all();
    assert!(buffer.is_full());
    assert_eq!(buffer.initializer().items_initialized(), 8);
}

#[test]
fn into_raw_parts_returns_cursors() {
    let mut buffer = Buffer::uninit([0u8; 8]);
    buffer.append(b"ab");
    let (initializer, items_filled) = buffer.into_raw_parts();
    assert_eq!(items_filled, 2);
    assert_eq!(initializer.items_initialized(), 2);
}

#[test]
fn buffer_new_is_fully_filled() {
    let buffer = Buffer::new(vec![1u8, 2, 3]);
    assert!(buffer.is_full());
    assert_eq!(buffer.items_filled(), 3);
    assert_eq!(buffer.initializer().items_initialized(), 3);
    assert_eq!(buffer.filled_part(), &[1, 2, 3]);
}
