//! Behavioural tests of the verified core: frame geometry, double-buffer
//! parity, unused slots, size mismatches, determinism, the worker-link
//! state machine, and the plugin's lazy construction.

use webvfx::errors::RenderError;
use webvfx::frame::{check_dims, copy_frame, frame_len, zero_frame};
use webvfx::job::RenderJob;
use webvfx::mux::FrameMux;
use webvfx::plugin::{PluginCore, PluginStep};
use webvfx::processor::ProcessorState;

const W: u32 = 4;
const H: u32 = 3;
const FLEN: usize = (W * H * 4) as usize;

fn ramp(start: u8) -> Vec<u8> {
    (0..FLEN).map(|i| start.wrapping_add(i as u8)).collect()
}

#[test]
fn test_check_dims() {
    assert!(check_dims(320, 240));
    assert!(check_dims(1, 1));
    assert!(!check_dims(0, 240));
    assert!(!check_dims(320, 0));
    // One frame at this size would need more bytes than a usize can index.
    assert!(!check_dims(u32::MAX, u32::MAX));
}

#[test]
fn test_frame_len() {
    assert_eq!(frame_len(320, 240), 307_200);
    assert_eq!(frame_len(W, H), FLEN);
}

#[test]
fn test_zero_and_copy_frame() {
    let z = zero_frame(8);
    assert_eq!(z.as_slice(), &[0u8; 8]);
    let src = vec![1u8, 2, 3, 4, 5, 6, 7, 8];
    let mut dst = zero_frame(8);
    copy_frame(&mut dst, &src);
    assert_eq!(dst, src);
}

#[test]
fn test_parity_alternates() {
    // The shared parity strictly alternates 0,1,0,1… across successful
    // updates: the buffer bound after call N always differs in identity
    // from the one bound after call N-1.
    let node_sets = vec![vec![8usize]];
    let mut mux = FrameMux::new(W, H, &node_sets);
    assert_eq!(mux.parity, 0);
    let mut last = mux.parity;
    for n in 0..6 {
        let frame = ramp(n as u8);
        assert!(mux.update(&vec![frame]).is_ok());
        assert_ne!(mux.parity, last);
        assert_eq!(mux.parity, (n + 1) % 2);
        last = mux.parity;
    }
}

#[test]
fn test_unused_slot_ignores_input() {
    // A slot with no discovered elements never stores its input's bytes
    // and never fails the update, even when the input is absent or
    // mis-sized.
    let node_sets = vec![vec![], vec![9usize]];
    let mut mux = FrameMux::new(W, H, &node_sets);
    let good = ramp(1);

    // Mis-sized input on the unused slot: accepted, ignored.
    let r = mux.update(&vec![vec![1, 2, 3], good.clone()]);
    assert!(r.is_ok());
    assert!(mux.slots[0].buf0.is_empty());
    assert!(mux.slots[0].buf1.is_empty());
    assert_eq!(mux.current_buffer(1).as_slice(), good.as_slice());

    // Absent input on the unused slot: same.
    let r = mux.update(&vec![Vec::new(), good.clone()]);
    assert!(r.is_ok());
    assert!(mux.slots[0].buf0.is_empty());
    assert!(mux.slots[0].buf1.is_empty());
}

#[test]
fn test_absent_input_skips_used_slot() {
    // An absent (empty) input leaves a used slot's buffers as they were.
    let node_sets = vec![vec![2usize]];
    let mut mux = FrameMux::new(W, H, &node_sets);
    let a = ramp(7);
    assert!(mux.update(&vec![a.clone()]).is_ok());
    let before0 = mux.slots[0].buf0.clone();
    let before1 = mux.slots[0].buf1.clone();
    assert!(mux.update(&vec![Vec::new()]).is_ok());
    assert_eq!(mux.slots[0].buf0, before0);
    assert_eq!(mux.slots[0].buf1, before1);
    // Only the parity moved.
    assert_eq!(mux.parity, 0);
}

#[test]
fn test_size_mismatch() {
    // A mis-sized input on a used slot is a fatal SizeMismatch naming the
    // expected frame length and the offending length, and nothing changes.
    let node_sets = vec![vec![3usize]];
    let mut mux = FrameMux::new(W, H, &node_sets);
    let short = vec![1u8, 2, 3];
    match mux.update(&vec![short]) {
        Err(RenderError::SizeMismatch { expected, actual }) => {
            assert_eq!(expected, FLEN);
            assert_eq!(actual, 3);
        }
        other => panic!("expected SizeMismatch, got {other:?}"),
    }
    assert_eq!(mux.parity, 0);
    assert_eq!(mux.slots[0].buf0.as_slice(), zero_frame(FLEN).as_slice());
    assert_eq!(mux.slots[0].buf1.as_slice(), zero_frame(FLEN).as_slice());
}

#[test]
fn test_update_deterministic() {
    // Two identical multiplexers fed the same inputs end byte-identical.
    let node_sets = vec![vec![1usize], vec![]];
    let mut m1 = FrameMux::new(W, H, &node_sets);
    let mut m2 = FrameMux::new(W, H, &node_sets);
    let inputs = vec![ramp(42), ramp(3)];
    let r1 = m1.update(&inputs);
    let r2 = m2.update(&inputs);
    assert_eq!(r1.is_ok(), r2.is_ok());
    assert_eq!(m1.parity, m2.parity);
    for i in 0..node_sets.len() {
        assert_eq!(m1.slots[i].buf0, m2.slots[i].buf0);
        assert_eq!(m1.slots[i].buf1, m2.slots[i].buf1);
    }
}

#[test]
fn test_job_valid_lengths() {
    let ok = RenderJob { time_bits: 0, inputs: vec![ramp(0), Vec::new()], output_len: FLEN };
    assert!(ok.valid_lengths(W, H));
    let bad_output = RenderJob { time_bits: 0, inputs: Vec::new(), output_len: FLEN - 1 };
    assert!(!bad_output.valid_lengths(W, H));
    let bad_input = RenderJob { time_bits: 0, inputs: vec![vec![1, 2]], output_len: FLEN };
    assert!(!bad_input.valid_lengths(W, H));
}

#[test]
fn test_worker_protocol_crash() {
    // A worker panic mid-job surfaces as WorkerCrashed, and every later
    // call fails fast with WorkerCrashed rather than hanging.
    let mut p = ProcessorState::new();
    assert!(p.check_ready().is_ok());
    assert!(p.submit(true).is_ok());
    let r = p.complete(false);
    assert!(matches!(r, Err(RenderError::WorkerCrashed)));
    assert!(matches!(p.check_ready(), Err(RenderError::WorkerCrashed)));
    assert!(matches!(p.check_ready(), Err(RenderError::WorkerCrashed)));
}

#[test]
fn test_worker_protocol_unavailable() {
    // A send on a closed channel surfaces as WorkerUnavailable, stickily.
    let mut p = ProcessorState::new();
    let r = p.submit(false);
    assert!(matches!(r, Err(RenderError::WorkerUnavailable)));
    assert!(matches!(p.check_ready(), Err(RenderError::WorkerUnavailable)));
}

#[test]
fn test_worker_protocol_ok() {
    // One full rendezvous: exactly one job in flight, then idle again.
    let mut p = ProcessorState::new();
    assert!(p.submit(true).is_ok());
    assert!(p.complete(true).is_ok());
    assert!(p.check_ready().is_ok());
}

#[test]
fn test_shutdown_with_no_job_pending() {
    // Shutdown closes the submission side unconditionally; afterwards no
    // job can be submitted, and dropping the state completes trivially.
    let mut p = ProcessorState::new();
    p.close();
    assert!(matches!(p.check_ready(), Err(RenderError::WorkerUnavailable)));
    drop(p);
}

#[test]
fn test_plugin_lazy_build() {
    let mut plugin = PluginCore::new();
    assert_eq!(plugin.step(true, true), PluginStep::Build);
    plugin.record_build(true);
    assert_eq!(plugin.step(true, true), PluginStep::Render);
    assert_eq!(plugin.step(false, false), PluginStep::Render);
}

#[test]
fn test_plugin_reject_sticks() {
    // Undecodable parameters reject the build, and a failed instance skips
    // every later call even if the parameters look usable now.
    let mut plugin = PluginCore::new();
    assert_eq!(plugin.step(false, true), PluginStep::Reject);
    plugin.record_build(false);
    assert_eq!(plugin.step(true, true), PluginStep::Skip);
    assert_eq!(plugin.step(true, true), PluginStep::Skip);
}

#[test]
fn test_plugin_failed_build_sticks() {
    let mut plugin = PluginCore::new();
    assert_eq!(plugin.step(true, true), PluginStep::Build);
    plugin.record_build(false);
    assert_eq!(plugin.step(true, true), PluginStep::Skip);
}
