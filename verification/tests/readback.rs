use gpu_image::compute_shader::{ComputeShader, HEIGHT, WIDTH};
use gpu_image::readback::{Readback, ReadbackAction, ReadbackEvent, ReadbackState};

fn solid(width: u32, height: u32, colour: [u8; 4]) -> Vec<u8> {
    let mut bytes = Vec::new();
    for _ in 0..width * height {
        bytes.extend_from_slice(&colour);
    }
    bytes
}

fn run(mapped: Vec<u8>) -> Option<Vec<u8>> {
    let mut bridge = Readback::new();
    assert_eq!(bridge.step(ReadbackEvent::Submitted), ReadbackAction::MapAndPoll);
    assert_eq!(bridge.step(ReadbackEvent::Polled { ok: true }), ReadbackAction::AwaitOutcome);
    assert_eq!(bridge.step(ReadbackEvent::Resolved { ok: true }), ReadbackAction::ReadMappedRange);
    assert_eq!(bridge.step(ReadbackEvent::Read { bytes: mapped }), ReadbackAction::Unmap);
    assert_eq!(bridge.state, ReadbackState::Copied);
    assert_eq!(bridge.step(ReadbackEvent::Unmapped), ReadbackAction::Finish);
    assert_eq!(bridge.state, ReadbackState::Succeeded);
    bridge.finish()
}

#[test]
fn new_bridge_is_idle_and_has_no_result() {
    let bridge = Readback::new();
    assert_eq!(bridge.state, ReadbackState::Idle);
    assert!(bridge.bytes.is_empty());
    assert_eq!(bridge.finish(), None);
}

#[test]
fn solid_colour_comes_back_byte_for_byte() {
    let expected = solid(WIDTH, HEIGHT, [10, 20, 30, 255]);
    let first = run(expected.clone()).unwrap();
    assert_eq!(first.len(), (WIDTH * HEIGHT * 4) as usize);
    assert_eq!(first.len() as u64, ComputeShader::create_buffers().0.size);
    assert_eq!(first, expected);
    let second = run(expected.clone()).unwrap();
    assert_eq!(second, first);
}

#[test]
fn failed_poll_ends_without_bytes() {
    let mut bridge = Readback::new();
    bridge.step(ReadbackEvent::Submitted);
    assert_eq!(bridge.step(ReadbackEvent::Polled { ok: false }), ReadbackAction::Finish);
    assert_eq!(bridge.state, ReadbackState::Failed);
    assert_eq!(bridge.step(ReadbackEvent::Resolved { ok: true }), ReadbackAction::Ignore);
    assert_eq!(bridge.step(ReadbackEvent::Read { bytes: vec![1, 2, 3] }), ReadbackAction::Ignore);
    assert_eq!(bridge.state, ReadbackState::Failed);
    assert_eq!(bridge.finish(), None);
}

#[test]
fn refused_map_ends_without_bytes() {
    let mut bridge = Readback::new();
    bridge.step(ReadbackEvent::Submitted);
    bridge.step(ReadbackEvent::Polled { ok: true });
    assert_eq!(bridge.step(ReadbackEvent::Resolved { ok: false }), ReadbackAction::Finish);
    assert_eq!(bridge.state, ReadbackState::Failed);
    assert_eq!(bridge.step(ReadbackEvent::Unmapped), ReadbackAction::Ignore);
    assert_eq!(bridge.finish(), None);
}

#[test]
fn result_is_withheld_until_the_buffer_is_unmapped() {
    let mut bridge = Readback::new();
    bridge.step(ReadbackEvent::Submitted);
    bridge.step(ReadbackEvent::Polled { ok: true });
    bridge.step(ReadbackEvent::Resolved { ok: true });
    bridge.step(ReadbackEvent::Read { bytes: vec![1, 2, 3, 4] });
    assert_eq!(bridge.bytes, vec![1, 2, 3, 4]);
    assert_eq!(bridge.finish(), None);
}

#[test]
fn events_out_of_turn_change_nothing() {
    let mut bridge = Readback::new();
    assert_eq!(bridge.step(ReadbackEvent::Unmapped), ReadbackAction::Ignore);
    assert_eq!(bridge.step(ReadbackEvent::Polled { ok: true }), ReadbackAction::Ignore);
    assert_eq!(bridge.step(ReadbackEvent::Read { bytes: vec![9] }), ReadbackAction::Ignore);
    assert_eq!(bridge.state, ReadbackState::Idle);
    assert!(bridge.bytes.is_empty());
    bridge.step(ReadbackEvent::Submitted);
    assert_eq!(bridge.step(ReadbackEvent::Submitted), ReadbackAction::Ignore);
    assert_eq!(bridge.step(ReadbackEvent::Resolved { ok: true }), ReadbackAction::Ignore);
    assert_eq!(bridge.state, ReadbackState::Polling);
    bridge.step(ReadbackEvent::Polled { ok: true });
    bridge.step(ReadbackEvent::Resolved { ok: true });
    assert_eq!(bridge.step(ReadbackEvent::Unmapped), ReadbackAction::Ignore);
    assert_eq!(bridge.state, ReadbackState::Mapped);
    bridge.step(ReadbackEvent::Read { bytes: vec![5, 6] });
    assert_eq!(bridge.step(ReadbackEvent::Read { bytes: vec![7] }), ReadbackAction::Ignore);
    assert_eq!(bridge.bytes, vec![5, 6]);
    bridge.step(ReadbackEvent::Unmapped);
    assert_eq!(bridge.step(ReadbackEvent::Submitted), ReadbackAction::Ignore);
    assert_eq!(bridge.state, ReadbackState::Succeeded);
    assert_eq!(bridge.finish(), Some(vec![5, 6]));
}

#[test]
fn outcome_follows_what_the_device_did() {
    let bytes = solid(4, 2, [1, 2, 3, 4]);
    assert_eq!(ComputeShader::poll_queue(true, Some(bytes.clone())), Some(bytes.clone()));
    assert_eq!(ComputeShader::poll_queue(true, Some(Vec::new())), Some(Vec::new()));
    assert_eq!(ComputeShader::poll_queue(false, Some(bytes.clone())), None);
    assert_eq!(ComputeShader::poll_queue(true, None), None);
    assert_eq!(ComputeShader::poll_queue(false, None), None);
    assert_eq!(
        ComputeShader::poll_queue(true, Some(bytes.clone())),
        ComputeShader::poll_queue(true, Some(bytes))
    );
}
