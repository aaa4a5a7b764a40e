use oak_io::codec::{Decodable, Encodable};
use oak_io::handle::ReadHandle;
use oak_io::{Either, InitWrapper, Message, OakError, OakStatus, Receiver};
use proptest::arbitrary::any;
use proptest::strategy::{BoxedStrategy, Strategy};
use proptest::test_runner::TestRunner;

#[derive(Debug, PartialEq)]
struct TestStruct {
    receiver_0: Receiver<()>,
    field_0: u8,
    receiver_1: Receiver<()>,
    field_1: u8,
}

impl Encodable for TestStruct {
    fn encode(&self) -> Result<Message, OakError> {
        Ok(Message {
            bytes: vec![self.field_0, self.field_1],
            handles: vec![self.receiver_0.handle.handle, self.receiver_1.handle.handle],
        })
    }
}

impl Decodable for TestStruct {
    fn decode(message: &Message) -> Result<Self, OakError> {
        match (message.bytes.as_slice(), message.handles.as_slice()) {
            ([byte_0, byte_1], [handle_0, handle_1]) => Ok(TestStruct {
                receiver_0: Receiver::from(ReadHandle::from(*handle_0)),
                field_0: *byte_0,
                receiver_1: Receiver::from(ReadHandle::from(*handle_1)),
                field_1: *byte_1,
            }),
            _ => panic!("invalid Message for TestStruct"),
        }
    }
}

fn arb_test_struct() -> BoxedStrategy<TestStruct> {
    (any::<u64>(), any::<u8>(), any::<u64>(), any::<u8>())
        .prop_map(|(h0, f0, h1, f1)| TestStruct {
            receiver_0: Receiver::new(ReadHandle::from(h0)),
            field_0: f0,
            receiver_1: Receiver::new(ReadHandle::from(h1)),
            field_1: f1,
        })
        .boxed()
}

type T = Either<u32, TestStruct>;

fn arb_t() -> BoxedStrategy<T> {
    (any::<bool>(), any::<u32>(), arb_test_struct())
        .prop_map(|(left, x, s)| if left { Either::Left(x) } else { Either::Right(s) })
        .boxed()
}

type I = InitWrapper<TestStruct, ()>;

fn arb_i() -> BoxedStrategy<I> {
    (arb_test_struct(), any::<u64>())
        .prop_map(|(init, h)| InitWrapper {
            init,
            command_receiver: Receiver::new(ReadHandle::from(h)),
        })
        .boxed()
}

#[test]
fn test_struct_round_trip() {
    let mut runner = TestRunner::default();
    runner
        .run(&arb_test_struct(), |original| {
            let encoded = original.encode().unwrap();
            assert_eq!(
                Message {
                    bytes: vec![original.field_0, original.field_1],
                    handles: vec![
                        original.receiver_0.handle.handle,
                        original.receiver_1.handle.handle
                    ],
                },
                encoded
            );
            let decoded = TestStruct::decode(&encoded).unwrap();
            assert_eq!(original, decoded);
            Ok(())
        })
        .unwrap();
}

#[test]
fn either_round_trip_u32() {
    let mut runner = TestRunner::default();
    runner
        .run(&any::<u32>(), |original| {
            let encoded = original.encode().unwrap();
            let decoded = u32::decode(&encoded).unwrap();
            assert_eq!(original, decoded);
            Ok(())
        })
        .unwrap();
}

#[test]
fn either_round_trip_t() {
    let mut runner = TestRunner::default();
    runner
        .run(&arb_t(), |original| {
            let encoded = original.encode().unwrap();
            let decoded = T::decode(&encoded).unwrap();
            assert_eq!(original, decoded);
            Ok(())
        })
        .unwrap();
}

#[test]
fn either_round_trip_invalid() {
    let invalid_variant = 42;
    let encoded_invalid = Message {
        bytes: vec![invalid_variant, 8, 196, 15],
        handles: vec![],
    };
    assert!(matches!(
        T::decode(&encoded_invalid),
        Err(OakError::OakStatus(OakStatus::ErrInvalidArgs))
    ));
}

#[test]
fn init_wrapper_round_trip() {
    let mut runner = TestRunner::default();
    runner
        .run(&arb_i(), |original| {
            let encoded = original.encode().unwrap();
            let decoded = I::decode(&encoded).unwrap();
            assert_eq!(original, decoded);
            Ok(())
        })
        .unwrap();
}

#[test]
fn u32_is_encoded_little_endian() {
    let encoded = 0x0403_0201u32.encode().unwrap();
    assert_eq!(encoded.bytes, vec![1, 2, 3, 4]);
    assert!(encoded.handles.is_empty());
}

#[test]
fn u32_decode_needs_exactly_four_bytes_and_no_handles() {
    let short = Message { bytes: vec![1, 2, 3], handles: vec![] };
    assert_eq!(u32::decode(&short), Err(OakError::OakStatus(OakStatus::ErrInvalidArgs)));
    let with_handle = Message { bytes: vec![1, 2, 3, 4], handles: vec![9] };
    assert_eq!(u32::decode(&with_handle), Err(OakError::OakStatus(OakStatus::ErrInvalidArgs)));
    let exact = Message { bytes: vec![0xff, 0, 0, 0x80], handles: vec![] };
    assert_eq!(u32::decode(&exact), Ok(0x8000_00ff));
}

#[test]
fn unit_is_the_empty_message() {
    let encoded = ().encode().unwrap();
    assert_eq!(encoded, Message { bytes: vec![], handles: vec![] });
    assert_eq!(<()>::decode(&encoded), Ok(()));
    let not_empty = Message { bytes: vec![0], handles: vec![] };
    assert_eq!(<()>::decode(&not_empty), Err(OakError::OakStatus(OakStatus::ErrInvalidArgs)));
}

#[test]
fn either_encode_puts_the_variant_first() {
    let left: Either<u32, ()> = Either::Left(0x0403_0201);
    assert_eq!(
        left.encode().unwrap(),
        Message { bytes: vec![0, 1, 2, 3, 4], handles: vec![] }
    );
    let right: Either<u32, ()> = Either::Right(());
    assert_eq!(right.encode().unwrap(), Message { bytes: vec![1], handles: vec![] });
}

#[test]
fn either_encode_keeps_the_inner_handles() {
    let s = TestStruct {
        receiver_0: Receiver::new(ReadHandle::from(7)),
        field_0: 3,
        receiver_1: Receiver::new(ReadHandle::from(8)),
        field_1: 4,
    };
    let e: T = Either::Right(s);
    assert_eq!(
        e.encode().unwrap(),
        Message { bytes: vec![1, 3, 4], handles: vec![7, 8] }
    );
}

#[test]
fn either_decode_of_empty_message_fails() {
    let empty = Message { bytes: vec![], handles: vec![] };
    assert_eq!(
        Either::<u32, ()>::decode(&empty),
        Err(OakError::OakStatus(OakStatus::ErrInvalidArgs))
    );
}

#[test]
fn either_decode_reads_the_variant() {
    let left = Message { bytes: vec![0, 5, 0, 0, 0], handles: vec![] };
    assert_eq!(Either::<u32, ()>::decode(&left), Ok(Either::Left(5)));
    let right = Message { bytes: vec![1], handles: vec![] };
    assert_eq!(Either::<u32, ()>::decode(&right), Ok(Either::Right(())));
    let bad_inner = Message { bytes: vec![1, 0], handles: vec![] };
    assert_eq!(
        Either::<u32, ()>::decode(&bad_inner),
        Err(OakError::OakStatus(OakStatus::ErrInvalidArgs))
    );
}

#[test]
fn encode_of_decode_gives_back_the_message() {
    let m = Message { bytes: vec![0, 9, 8, 7, 6], handles: vec![] };
    let decoded = Either::<u32, ()>::decode(&m).unwrap();
    assert_eq!(decoded.encode().unwrap(), m);
    let w = Message { bytes: vec![], handles: vec![11] };
    let decoded = InitWrapper::<(), ()>::decode(&w).unwrap();
    assert_eq!(decoded.encode().unwrap(), w);
}

#[test]
fn init_wrapper_encode_puts_the_command_handle_first() {
    let w: InitWrapper<u32, ()> = InitWrapper {
        init: 0x0403_0201,
        command_receiver: Receiver::new(ReadHandle::from(99)),
    };
    assert_eq!(
        w.encode().unwrap(),
        Message { bytes: vec![1, 2, 3, 4], handles: vec![99] }
    );
}

#[test]
fn init_wrapper_decode_reads_the_command_handle() {
    let m = Message { bytes: vec![], handles: vec![5] };
    let w = InitWrapper::<(), u32>::decode(&m).unwrap();
    assert_eq!(w.command_receiver.handle, ReadHandle { handle: 5 });
    assert_eq!(w.init, ());
}

#[test]
fn init_wrapper_decode_without_handles_fails() {
    let m = Message { bytes: vec![1, 2, 3, 4], handles: vec![] };
    assert_eq!(
        InitWrapper::<u32, ()>::decode(&m),
        Err(OakError::OakStatus(OakStatus::ErrInvalidArgs))
    );
}

#[test]
fn init_wrapper_decode_passes_on_the_init_error() {
    let m = Message { bytes: vec![1], handles: vec![5] };
    assert_eq!(
        InitWrapper::<u32, ()>::decode(&m),
        Err(OakError::OakStatus(OakStatus::ErrInvalidArgs))
    );
}

#[test]
fn status_converts_into_error() {
    assert_eq!(
        OakError::from(OakStatus::ErrPermissionDenied),
        OakError::OakStatus(OakStatus::ErrPermissionDenied)
    );
}

#[test]
fn receiver_keeps_its_handle() {
    let r: Receiver<()> = Receiver::from(ReadHandle::from(17));
    assert_eq!(r.handle.handle, 17);
    assert_eq!(r.clone(), r);
}
