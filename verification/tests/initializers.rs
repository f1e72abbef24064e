use cranelift_wasm::{GlobalIndex, MemoryIndex};
use wasmjit_environ::module_environ::{
    DataInitializer, DataInitializerLocation, OwnedDataInitializer,
};

#[test]
fn into_owned_keeps_location_and_bytes() {
    let bytes = [1u8, 2, 3, 4];
    let location = DataInitializerLocation {
        memory_index: MemoryIndex::from_u32(0),
        base: Some(GlobalIndex::from_u32(3)),
        offset: 16,
    };
    let owned = DataInitializer { location, data: &bytes }.into_owned();
    assert_eq!(owned.location, location);
    assert_eq!(owned.data, vec![1u8, 2, 3, 4]);
}

#[test]
fn owned_initializer_survives_the_buffer() {
    let owned = {
        let buffer = vec![9u8, 8, 7];
        let location = DataInitializerLocation {
            memory_index: MemoryIndex::from_u32(2),
            base: None,
            offset: 0,
        };
        DataInitializer { location, data: &buffer }.into_owned()
    };
    assert_eq!(owned.data, vec![9u8, 8, 7]);
    assert_eq!(owned.location.memory_index, MemoryIndex::from_u32(2));
}

#[test]
fn round_trip_through_owned_is_lossless() {
    let bytes: Vec<u8> = (0..=255u8).collect();
    let location = DataInitializerLocation {
        memory_index: MemoryIndex::from_u32(1),
        base: Some(GlobalIndex::from_u32(0)),
        offset: 4096,
    };
    let initializer = DataInitializer { location, data: &bytes };
    let owned = initializer.into_owned();
    let borrowed: DataInitializer = (&owned).into();
    assert_eq!(borrowed.data, &bytes[..]);
    assert_eq!(borrowed.location, location);
}

#[test]
fn round_trip_of_an_empty_initializer() {
    let location =
        DataInitializerLocation { memory_index: MemoryIndex::from_u32(0), base: None, offset: 0 };
    let owned = DataInitializer { location, data: &[] }.into_owned();
    let borrowed = DataInitializer::from(&owned);
    assert!(borrowed.data.is_empty());
    assert_eq!(borrowed.location, location);
}

#[test]
fn borrowed_view_points_into_the_owned_bytes() {
    let owned = OwnedDataInitializer {
        location: DataInitializerLocation {
            memory_index: MemoryIndex::from_u32(0),
            base: None,
            offset: 8,
        },
        data: vec![5, 6],
    };
    let borrowed = DataInitializer::from(&owned);
    assert_eq!(borrowed.data.as_ptr(), owned.data.as_ptr());
    assert_eq!(borrowed.data, &[5u8, 6][..]);
    assert_eq!(borrowed.location.offset, 8);
}
