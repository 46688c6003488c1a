use dx12_triangle::barrier::ResourceId;
use dx12_triangle::constant_buffer::ConstantBuffer;
use dx12_triangle::dx12error::{Dx12Error, ErrorKind};

fn buffers() -> [ResourceId; 2] {
    [ResourceId { id: 11 }, ResourceId { id: 12 }]
}

#[test]
fn default_constant_buffer_is_empty() {
    let cb = ConstantBuffer::default();
    assert!(cb.buffers().is_none());
    assert_eq!(cb.size(), 0);
    assert!(!cb.is_valid());
}

#[test]
fn size_is_rounded_up_to_256_bytes() {
    assert_eq!(ConstantBuffer::new(0, buffers()).unwrap().size(), 0);
    assert_eq!(ConstantBuffer::new(1, buffers()).unwrap().size(), 256);
    assert_eq!(ConstantBuffer::new(256, buffers()).unwrap().size(), 256);
    assert_eq!(ConstantBuffer::new(300, buffers()).unwrap().size(), 512);
}

#[test]
fn oversized_constant_buffer_is_rejected() {
    let err = ConstantBuffer::new(u64::MAX - 100, buffers()).unwrap_err();
    assert_eq!(err.kind(), ErrorKind::ResourceCreationFailure);
}

#[test]
fn transfer_moves_the_buffers_to_the_receiver() {
    let mut source = ConstantBuffer::new(300, buffers()).unwrap();
    let mut receiver = ConstantBuffer::default();

    receiver.transfer_constant_buffer(&mut source);

    assert_eq!(receiver.buffers(), Some(buffers()));
    assert_eq!(receiver.size(), 512);
    assert!(source.buffers().is_none());
}

#[test]
fn error_messages_are_kept() {
    let err = Dx12Error::new("Failed to create factory");
    assert_eq!(err.get_message(), "Failed to create factory");
    assert_eq!(err.kind(), ErrorKind::ResourceCreationFailure);
    assert_eq!(err.code(), None);
}
