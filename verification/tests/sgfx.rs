use rvfm::sgfx::resource_tracker::{BufferHandle, TextureHandle, TrackedResources};
use rvfm::sgfx::command_list_internal::CommandListBuilderInternal;
use rvfm::sdk::command_list::CommandListBuilder;
use rvfm::sdk::gpu::GpuCommandBuilderExt;

#[test]
fn first_allocations_on_an_empty_table() {
    let mut t = TrackedResources::new();
    // The bit set is counted from the bottom, the free bit sought from the top: the first
    // two allocations both give 0.
    assert_eq!(t.alloc_texture().map(|h| h.0), Some(0));
    assert_eq!(t.texture_allocs, [1, 0]);
    assert_eq!(t.alloc_texture().map(|h| h.0), Some(0));
    assert_eq!(t.buffer_allocs, [0; 8]);
}

#[test]
fn allocation_counts_leading_ones() {
    let mut t = TrackedResources::new();
    t.buffer_allocs[0] = 0x8000_0000;
    assert_eq!(t.alloc_buffer().map(|h| h.0), Some(1));
    assert_eq!(t.buffer_allocs[0], 0x8000_0002);
    t.buffer_allocs[0] = 0xFFFF_FFFF;
    t.buffer_allocs[1] = 0xC000_0000;
    assert_eq!(t.alloc_buffer().map(|h| h.0), Some(34));
    assert_eq!(t.buffer_allocs[1], 0xC000_0004);
}

#[test]
fn full_tables_give_nothing() {
    let mut t = TrackedResources::new();
    t.pipeline_state_allocs = [0xFFFF_FFFF; 2];
    assert!(t.alloc_pipeline_state().is_none());
    assert_eq!(t.pipeline_state_allocs, [0xFFFF_FFFF; 2]);
}

#[test]
fn freeing_clears_the_bit() {
    let mut t = TrackedResources::new();
    t.texture_allocs = [0xFFFF_FFFF, 0xFFFF_FFFF];
    t.free_texture(TextureHandle(33));
    assert_eq!(t.texture_allocs, [0xFFFF_FFFF, 0xFFFF_FFFD]);
    t.buffer_allocs[7] = 0x1;
    t.free_buffer(BufferHandle(224));
    assert_eq!(t.buffer_allocs[7], 0);
    assert!(t.alloc_shader().is_some());
    assert!(t.alloc_constant_sampler().is_some());
}

#[test]
fn internal_list_starts_empty_after_finishing() {
    let mut b = CommandListBuilderInternal::new();
    assert_eq!(b.clear_texture(1, 2), Ok(()));
    assert!(b.push_command(&[7, 7]));
    let list = b.finish_and_reset();
    assert_eq!(list.command_bytes, vec![0, 0, 0, 0, 0, 0, 0, 0, 0x00, 0x00, 1, 2, 7, 7]);
    let again = b.finish_and_reset();
    assert_eq!(again.command_bytes, vec![0u8; 8]);
}

use rvfm::sdk::gpu::{mode_bits, VideoResolution};
use rvfm::sgfx::transfer_queue::{append_set_video_mode, resolve_retained_writes};

#[test]
fn video_mode_with_all_layers() {
    let mut pending = CommandListBuilderInternal::new();
    append_set_video_mode(&mut pending, VideoResolution::R256x192);
    let list = pending.finish_and_reset();
    assert_eq!(&list.command_bytes[8..], &[0x03, 0x00, 0x00, mode_bits(VideoResolution::R256x192, true, true, true)]);
    assert_eq!(mode_bits(VideoResolution::R256x192, true, true, true) & 0x0E, 0x0E);
}

#[test]
fn retained_data_let_go_once_passed() {
    let mut retained: Vec<(Option<Vec<u8>>, usize)> =
        vec![(Some(vec![1]), 3), (None, 4), (Some(vec![2]), 5), (Some(vec![3]), 9), (Some(vec![4]), 6)];
    resolve_retained_writes(&mut retained, 5);
    // Entries up to point 5 are let go, and those at the front are dropped; a later entry
    // that is let go stays behind one that is kept.
    assert_eq!(retained, vec![(Some(vec![3]), 9), (Some(vec![4]), 6)]);
    resolve_retained_writes(&mut retained, 6);
    assert_eq!(retained, vec![(Some(vec![3]), 9), (None, 6)]);
    resolve_retained_writes(&mut retained, 9);
    assert!(retained.is_empty());
}
