use substrate::ipc::{Endpoint, IpcError, MessageInfo, MESSAGE_CAPACITY};
use substrate::{Fault, FaultDecodeError, FaultEndpoint, FaultReceiveError};

fn registers(words: &[u64]) -> Vec<u64> {
    let mut buffer = vec![0u64; MESSAGE_CAPACITY];
    buffer[..words.len()].copy_from_slice(words);
    buffer
}

fn info(label: u64, length: usize, extra_caps: usize, caps_unwrapped: usize) -> MessageInfo {
    MessageInfo { label, length, extra_caps, caps_unwrapped }
}

#[test]
fn decodes_badged_vm_faults_and_replies_once() {
    let mut endpoint = FaultEndpoint::new(Endpoint::new(30));
    endpoint.begin_receive().expect("idle");
    assert_eq!(endpoint.begin_receive(), Err(FaultReceiveError::Ipc(IpcError::ReplyPending)));
    let buffer = registers(&[0x1000, 0x0200_3000, 0, 0x92]);
    let received = endpoint.complete_receive(info(5, 4, 0, 0), &buffer, 0x41).expect("valid fault");
    assert_eq!(received.source().raw(), 0x41);
    assert!(matches!(received.fault(), Fault::VmFault(vm) if vm.address == 0x0200_3000));
    let reply = FaultEndpoint::reply(received);
    assert_eq!(reply, info(0, 0, 0, 0));
    assert!(!endpoint.endpoint().reply_pending());
}

#[test]
fn refuses_unbadged_faults() {
    let mut endpoint = FaultEndpoint::new(Endpoint::new(30));
    endpoint.begin_receive().expect("idle");
    let buffer = registers(&[0x1000, 0x4000, 0, 0]);
    let error = endpoint.complete_receive(info(5, 4, 0, 0), &buffer, 0).err();
    assert_eq!(error, Some(FaultReceiveError::MissingSourceBadge));
    assert!(!endpoint.endpoint().reply_pending());
}

#[test]
fn refuses_capability_transfers() {
    let mut endpoint = FaultEndpoint::new(Endpoint::new(30));
    endpoint.begin_receive().expect("idle");
    let buffer = registers(&[]);
    assert_eq!(
        endpoint.complete_receive(info(5, 0, 2, 0), &buffer, 7).err(),
        Some(FaultReceiveError::UnexpectedCapabilities { caps_unwrapped: 0, extra_caps: 2 })
    );
    endpoint.begin_receive().expect("authority released");
    assert_eq!(
        endpoint.complete_receive(info(5, 0, 0, 1), &buffer, 7).err(),
        Some(FaultReceiveError::UnexpectedCapabilities { caps_unwrapped: 1, extra_caps: 0 })
    );
}

#[test]
fn refuses_oversized_and_undecodable_faults() {
    let mut endpoint = FaultEndpoint::new(Endpoint::new(30));
    endpoint.begin_receive().expect("idle");
    let buffer = registers(&[]);
    assert_eq!(
        endpoint.complete_receive(info(5, 121, 0, 0), &buffer, 7).err(),
        Some(FaultReceiveError::MessageTooLong { length: 121, capacity: 120 })
    );
    endpoint.begin_receive().expect("authority released");
    assert_eq!(
        endpoint.complete_receive(info(3, 0, 0, 0), &buffer, 7).err(),
        Some(FaultReceiveError::Decode(FaultDecodeError::UnsupportedLabel(3)))
    );
    assert!(!endpoint.endpoint().reply_pending());
}
