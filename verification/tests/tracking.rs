use uninit_tools::buffer::Buffer;
use uninit_tools::initializer::BufferInitializer;
use uninit_tools::traits::{Initialize, InitializeVectored};
use uninit_tools::wrappers::{AsUninit, AssertInit, AssertInitVectors, InitializeExt, SingleVector};

#[test]
fn tracker_uninit_starts_at_zero() {
    let tracker = BufferInitializer::uninit([0u8; 16]);
    assert_eq!(tracker.capacity(), 16);
    assert_eq!(tracker.items_initialized(), 0);
    assert_eq!(tracker.remaining(), 16);
    assert!(tracker.is_completely_uninit());
    assert!(!tracker.is_completely_init());
    assert_eq!(tracker.init_part(), &[]);
    assert_eq!(tracker.uninit_part().len(), 16);
}

#[test]
fn tracker_new_starts_at_capacity() {
    let tracker = BufferInitializer::new([9u8; 4]);
    assert_eq!(tracker.items_initialized(), 4);
    assert!(tracker.is_completely_init());
    assert_eq!(tracker.init_part(), &[9, 9, 9, 9]);
}

#[test]
fn tracker_partial_fill_advances_cursor() {
    let mut tracker = BufferInitializer::uninit([0u8; 8]);
    tracker.partially_fill_uninit_part(3, 0xAB);
    assert_eq!(tracker.items_initialized(), 3);
    assert_eq!(tracker.init_part(), &[0xAB, 0xAB, 0xAB]);
    tracker.partially_zero_uninit_part(2);
    assert_eq!(tracker.items_initialized(), 5);
    assert_eq!(tracker.init_part(), &[0xAB, 0xAB, 0xAB, 0, 0]);
    assert_eq!(tracker.remaining(), 3);
}

#[test]
fn tracker_advance_to_end_completes() {
    let mut tracker = BufferInitializer::uninit([5u8; 4]);
    tracker.advance_to_end();
    assert!(tracker.is_completely_init());
    assert_eq!(tracker.remaining(), 0);
}

#[test]
fn try_into_init_fails_when_partial() {
    let mut tracker = BufferInitializer::uninit([0u8; 4]);
    tracker.partially_fill_uninit_part(2, 1);
    match tracker.try_into_init() {
        Ok(_) => panic!("extraction must fail while slots remain uninitialized"),
        Err(returned) => {
            assert_eq!(returned.items_initialized(), 2);
            assert_eq!(returned.capacity(), 4);
        }
    }
}

#[test]
fn try_into_init_succeeds_when_complete() {
    let mut tracker = BufferInitializer::uninit([0u8; 2]);
    tracker.partially_fill_uninit_part(2, 7);
    let asserted = tracker.try_into_init().unwrap();
    assert_eq!(asserted.get_init_ref(), &[7, 7]);
    assert_eq!(asserted.into_inner(), [7u8, 7]);
}

#[test]
fn tracker_mutable_parts() {
    let mut tracker = BufferInitializer::uninit([0u8; 6]);
    tracker.partially_fill_uninit_part(2, b'a');
    {
        let init = tracker.init_part_mut();
        init[1] = b'b';
    }
    assert_eq!(tracker.init_part(), b"ab");
    {
        let uninit = tracker.uninit_part_mut();
        uninit[0] = b'c';
    }
    assert_eq!(tracker.items_initialized(), 2);
    let (init, uninit) = tracker.init_uninit_parts();
    assert_eq!(init, b"ab");
    assert_eq!(uninit.len(), 4);
    assert_eq!(uninit[0], b'c');
}

#[test]
fn assert_init_views() {
    let mut asserted = AssertInit::new([1u8, 2, 3]);
    assert_eq!(asserted.get_init_ref(), &[1, 2, 3]);
    assert_eq!(asserted.get_uninit_ref(), &[1, 2, 3]);
    {
        let items = asserted.get_init_mut();
        items[0] = 9;
    }
    assert_eq!(asserted.inner(), &[9u8, 2, 3]);
    {
        let inner = asserted.inner_mut();
        inner[1] = 8;
    }
    assert_eq!(asserted.into_inner(), [9u8, 8, 3]);
}

#[test]
fn assert_init_derefs_to_contents() {
    let asserted = AssertInit::new([1u8, 2, 3]);
    let slice: &[u8] = &asserted;
    assert_eq!(slice, &[1, 2, 3]);
    assert_eq!(asserted.len(), 3);
}

#[test]
fn into_asserted_wraps_container() {
    let asserted = [4u8, 5].into_asserted();
    assert_eq!(asserted.get_init_ref(), &[4, 5]);
}

#[test]
fn assert_init_compares_by_contents() {
    let a = AssertInit::new([1u8, 2]);
    let b = AssertInit::new([1u8, 2]);
    let c = AssertInit::new([1u8, 3]);
    assert_eq!(a, b);
    assert!(a < c);
    assert_ne!(a, c);
}

#[test]
fn assert_init_vectors_round_trip() {
    let vectors: Vec<[u8; 2]> = vec![[1, 2], [3, 4]];
    let asserted = AssertInitVectors::new(vectors);
    assert_eq!(asserted.into_inner(), vec![[1u8, 2], [3, 4]]);
}

#[test]
fn single_vector_is_a_region() {
    let mut single = SingleVector([0u8; 4]);
    assert_eq!(single.as_region(), &[0, 0, 0, 0]);
    {
        let region = single.as_region_mut();
        region[0] = 1;
    }
    single.write(1, 2);
    assert_eq!(single.as_region(), &[1, 2, 0, 0]);
}

#[test]
fn vec_of_regions_is_vectored() {
    let mut list: Vec<[u8; 2]> = vec![[0, 0], [0, 0], [0, 0]];
    assert_eq!(list.as_vectors().len(), 3);
    {
        let vectors = list.as_vectors_mut();
        vectors[1] = [5, 6];
    }
    assert_eq!(list.as_vectors()[1], [5, 6]);
}

#[test]
fn as_uninit_wraps_growable_container() {
    let buffer = Buffer::uninit(AsUninit(vec![0u8; 8]));
    assert_eq!(buffer.capacity(), 8);
    assert_eq!(buffer.items_filled(), 0);
}

#[test]
fn buffer_over_borrowed_slice() {
    let mut storage = [0u8; 8];
    {
        let mut buffer = Buffer::from_uninit_slice_mut(&mut storage);
        assert_eq!(buffer.capacity(), 8);
        assert_eq!(buffer.initializer().items_initialized(), 0);
        buffer.append(b"hey");
        assert_eq!(buffer.filled_part(), b"hey");
    }
    assert_eq!(&storage[..3], b"hey");
}

#[test]
fn buffer_from_slice_mut_is_initialized() {
    let mut storage = [3u8; 4];
    let buffer = Buffer::from_slice_mut(&mut storage);
    assert_eq!(buffer.initializer().items_initialized(), 4);
    assert_eq!(buffer.items_filled(), 0);
    assert_eq!(buffer.unfilled_init_part(), &[3, 3, 3, 3]);
}

#[test]
fn buffer_ref_restricted_writes() {
    let mut buffer = Buffer::uninit([0u8; 8]);
    {
        let mut this = buffer.by_ref();
        assert_eq!(this.remaining(), 8);
        this.append(b"hi");
        assert_eq!(this.items_filled(), 2);
        let mut again = this.by_ref();
        again.append(b"!!");
    }
    assert_eq!(buffer.filled_part(), b"hi!!");

    {
        let mut this = buffer.by_ref();
        this.revert_to_start();
        assert_eq!(this.items_filled(), 0);
        this.fill_by_repeating(b'z');
    }
    assert!(buffer.is_full());
    assert_eq!(buffer.filled_part(), b"zzzzzzzz");
}

#[test]
fn buffer_ref_unfilled_parts_and_advance() {
    let mut buffer = Buffer::uninit([0u8; 4]);
    buffer.append(b"a");
    buffer.revert_to_start();
    {
        let mut this = buffer.by_ref();
        let (init, uninit) = this.unfilled_parts();
        assert_eq!(init, b"a");
        uninit[0] = b'b';
        this.advance(2);
        assert_eq!(this.items_filled(), 2);
    }
    assert_eq!(buffer.filled_part(), b"ab");

    {
        let mut this = buffer.by_ref();
        this.advance_all();
    }
    assert!(buffer.is_full());
}

#[test]
fn buffer_ref_fill_by_zeroing() {
    let mut buffer = Buffer::uninit([9u8; 4]);
    {
        let mut this = buffer.by_ref();
        this.fill_by_zeroing();
    }
    assert_eq!(buffer.filled_part(), &[0, 0, 0, 0]);
}

#[test]
fn append_through_ref_reaches_buffer() {
    let mut buffer = Buffer::uninit(vec![0u8; 6]);
    uninit_tools::buffer::append_through_ref(&mut buffer, b"abc");
    assert_eq!(buffer.filled_part(), b"abc");
    assert_eq!(buffer.items_filled(), 3);
}
