//! Frame-multiplexer scenarios for each plugin kind: a source (no inputs),
//! a filter (one input), and the two- and three-input mixers, including a
//! document that binds several elements to one slot.

use webvfx::mux::FrameMux;

const WIDTH: u32 = 320;
const HEIGHT: u32 = 240;
const FLEN: usize = (WIDTH * HEIGHT * 4) as usize;

fn solid(byte: u8) -> Vec<u8> {
    vec![byte; FLEN]
}

#[test]
fn test_source() {
    // A static document with no bound inputs: updates succeed, only the
    // parity moves, and there is nothing to store.
    let node_sets: Vec<Vec<usize>> = Vec::new();
    let mut mux = FrameMux::new(WIDTH, HEIGHT, &node_sets);
    let inputs: Vec<Vec<u8>> = Vec::new();
    assert!(mux.update(&inputs).is_ok());
    assert_eq!(mux.parity, 1);
    assert!(mux.update(&inputs).is_ok());
    assert_eq!(mux.parity, 0);
}

#[test]
fn test_filter() {
    // One slot, one element: each update exposes exactly the fed frame,
    // and the previously exposed buffer is left untouched.
    let node_sets = vec![vec![5usize]];
    let mut mux = FrameMux::new(WIDTH, HEIGHT, &node_sets);
    let a = solid(0xAA);
    let b = solid(0xBB);

    assert!(mux.update(&vec![a.clone()]).is_ok());
    assert_eq!(mux.current_buffer(0).as_slice(), a.as_slice());

    assert!(mux.update(&vec![b.clone()]).is_ok());
    assert_eq!(mux.current_buffer(0).as_slice(), b.as_slice());
    // The buffer bound before this call still holds the previous frame.
    assert_eq!(mux.slots[0].buf1.as_slice(), a.as_slice());

    assert!(mux.update(&vec![a.clone()]).is_ok());
    assert_eq!(mux.current_buffer(0).as_slice(), a.as_slice());
}

#[test]
fn test_mixer2() {
    // Two slots fed swapped frames across calls give two distinct exposed
    // buffers, each matching its own input of that call.
    let node_sets = vec![vec![1usize], vec![2usize]];
    let mut mux = FrameMux::new(WIDTH, HEIGHT, &node_sets);
    let a = solid(0x11);
    let b = solid(0x22);

    assert!(mux.update(&vec![a.clone(), b.clone()]).is_ok());
    assert_eq!(mux.current_buffer(0).as_slice(), a.as_slice());
    assert_eq!(mux.current_buffer(1).as_slice(), b.as_slice());

    assert!(mux.update(&vec![b.clone(), a.clone()]).is_ok());
    assert_eq!(mux.current_buffer(0).as_slice(), b.as_slice());
    assert_eq!(mux.current_buffer(1).as_slice(), a.as_slice());
    assert_ne!(mux.current_buffer(0).as_slice(), mux.current_buffer(1).as_slice());

    assert!(mux.update(&vec![a.clone(), b.clone()]).is_ok());
    assert_eq!(mux.current_buffer(0).as_slice(), a.as_slice());
    assert_eq!(mux.current_buffer(1).as_slice(), b.as_slice());
}

#[test]
fn test_mixer3() {
    // Three slots, inputs rotated between calls.
    let node_sets = vec![vec![1usize], vec![2usize], vec![3usize]];
    let mut mux = FrameMux::new(WIDTH, HEIGHT, &node_sets);
    let a = solid(0x11);
    let b = solid(0x22);
    let c = solid(0x33);

    assert!(mux.update(&vec![a.clone(), b.clone(), c.clone()]).is_ok());
    assert_eq!(mux.current_buffer(0).as_slice(), a.as_slice());
    assert_eq!(mux.current_buffer(1).as_slice(), b.as_slice());
    assert_eq!(mux.current_buffer(2).as_slice(), c.as_slice());

    assert!(mux.update(&vec![c.clone(), a.clone(), b.clone()]).is_ok());
    assert_eq!(mux.current_buffer(0).as_slice(), c.as_slice());
    assert_eq!(mux.current_buffer(1).as_slice(), a.as_slice());
    assert_eq!(mux.current_buffer(2).as_slice(), b.as_slice());

    assert!(mux.update(&vec![b.clone(), c.clone(), a.clone()]).is_ok());
    assert_eq!(mux.current_buffer(0).as_slice(), b.as_slice());
    assert_eq!(mux.current_buffer(1).as_slice(), c.as_slice());
    assert_eq!(mux.current_buffer(2).as_slice(), a.as_slice());
}

#[test]
fn test_mixer3_dupe() {
    // Several elements bound to one slot: the same frame is projected onto
    // every matched element, and the handle set survives updates verbatim.
    let node_sets = vec![vec![1usize, 2], vec![3usize], vec![4usize]];
    let mut mux = FrameMux::new(WIDTH, HEIGHT, &node_sets);
    let a = solid(0x11);
    let b = solid(0x22);
    let c = solid(0x33);

    assert_eq!(mux.node_handles(0).as_slice(), &[1, 2]);

    assert!(mux.update(&vec![a.clone(), b.clone(), c.clone()]).is_ok());
    assert_eq!(mux.node_handles(0).as_slice(), &[1, 2]);
    assert_eq!(mux.current_buffer(0).as_slice(), a.as_slice());
    assert_eq!(mux.current_buffer(1).as_slice(), b.as_slice());
    assert_eq!(mux.current_buffer(2).as_slice(), c.as_slice());

    assert!(mux.update(&vec![c.clone(), a.clone(), b.clone()]).is_ok());
    assert_eq!(mux.node_handles(0).as_slice(), &[1, 2]);
    assert_eq!(mux.current_buffer(0).as_slice(), c.as_slice());

    assert!(mux.update(&vec![b.clone(), c.clone(), a.clone()]).is_ok());
    assert_eq!(mux.node_handles(0).as_slice(), &[1, 2]);
    assert_eq!(mux.current_buffer(0).as_slice(), b.as_slice());
}
