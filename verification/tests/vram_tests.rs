use frame_core::vram::Vram;

#[test]
fn new_allocator_is_empty() {
    let vram = Vram::new();
    assert_eq!((vram.index, vram.obj_index, vram.bg_palette, vram.obj_palette), (0, 0, 0, 0));
}

#[test]
fn tile_allocation_rounds_up_to_eight_words() {
    let mut vram = Vram::new();
    assert_eq!(vram.load_4bpp_bg_texture(&[0; 8]), 0);
    assert_eq!(vram.index, 1);
    assert_eq!(vram.load_4bpp_bg_texture(&[0; 9]), 1);
    assert_eq!(vram.index, 3);
    assert_eq!(vram.load_4bpp_bg_texture(&[0; 1]), 3);
    assert_eq!(vram.index, 4);
    assert_eq!(vram.load_4bpp_bg_texture(&[]), 4);
    assert_eq!(vram.index, 4);
    assert_eq!(vram.load_4bpp_bg_texture(&[0; 16]), 4);
    assert_eq!(vram.index, 6);
}

#[test]
fn palette_allocation_rounds_up_to_sixteen_colours() {
    let mut vram = Vram::new();
    assert_eq!(vram.load_bg_palette(&[0; 15]), 0);
    assert_eq!(vram.bg_palette, 1);
    assert_eq!(vram.load_bg_palette(&[0; 16]), 1);
    assert_eq!(vram.bg_palette, 2);
    assert_eq!(vram.load_bg_palette(&[0; 17]), 2);
    assert_eq!(vram.bg_palette, 4);
    assert_eq!(vram.load_obj_palette(&[0; 1]), 0);
    assert_eq!(vram.obj_palette, 1);
}

#[test]
fn regions_are_independent() {
    let mut vram = Vram::new();
    assert_eq!(vram.load_4bpp_bg_texture(&[0; 64]), 0);
    assert_eq!(vram.load_4bpp_obj_texture(&[0; 8]), 0);
    assert_eq!(vram.load_4bpp_obj_texture(&[0; 8]), 1);
    assert_eq!(vram.load_bg_palette(&[0; 15]), 0);
    assert_eq!(vram.load_obj_palette(&[0; 15]), 0);
    assert_eq!((vram.index, vram.obj_index, vram.bg_palette, vram.obj_palette), (8, 2, 1, 1));
}

#[test]
fn handles_never_go_down() {
    let mut vram = Vram::new();
    let sizes = [0usize, 1, 7, 8, 9, 0, 31, 64, 3];
    let mut last_bg = 0;
    let mut last_obj = 0;
    for n in sizes {
        let data = vec![0u32; n];
        let bg = vram.load_4bpp_bg_texture(&data);
        let obj = vram.load_4bpp_obj_texture(&data);
        assert!(bg >= last_bg && obj >= last_obj);
        last_bg = bg;
        last_obj = obj;
    }
    assert_eq!(last_bg, 17);
}

#[test]
fn reset_starts_every_region_again() {
    let mut vram = Vram::new();
    vram.load_4bpp_bg_texture(&[0; 24]);
    vram.load_4bpp_obj_texture(&[0; 24]);
    vram.load_bg_palette(&[0; 20]);
    vram.load_obj_palette(&[0; 20]);
    vram.reset();
    assert_eq!(vram.load_4bpp_bg_texture(&[0; 8]), 0);
    assert_eq!(vram.load_4bpp_obj_texture(&[0; 8]), 0);
    assert_eq!(vram.load_bg_palette(&[0; 8]), 0);
    assert_eq!(vram.load_obj_palette(&[0; 8]), 0);
}

#[test]
fn a_region_can_be_filled_to_the_last_word() {
    let mut vram = Vram::new();
    assert_eq!(vram.load_4bpp_obj_texture(&vec![0u32; 0x1000 - 8]), 0);
    assert_eq!(vram.load_4bpp_obj_texture(&[0; 8]), 511);
    assert_eq!(vram.obj_index, 512);
    assert_eq!(vram.load_4bpp_obj_texture(&[]), 512);
    let mut banks = Vram::new();
    for bank in 0..15u16 {
        assert_eq!(banks.load_obj_palette(&[0; 16]), bank);
    }
    assert_eq!(banks.load_obj_palette(&[0; 15]), 15);
    assert_eq!(banks.obj_palette, 16);
}

#[test]
fn offsets_follow_from_handles() {
    assert_eq!(Vram::tile_word_offset(0, 0), 0);
    assert_eq!(Vram::tile_word_offset(3, 5), 29);
    assert_eq!(Vram::palette_slot(0, 0), 1);
    assert_eq!(Vram::palette_slot(2, 15), 48);
}

#[test]
fn a_handle_is_above_the_one_of_an_earlier_block_that_was_not_empty() {
    let mut vram = Vram::new();
    let sizes = [1usize, 0, 0, 8, 9, 0, 17, 1];
    let mut handles = Vec::new();
    for n in sizes {
        handles.push(vram.load_4bpp_bg_texture(&vec![0u32; n]));
    }
    assert_eq!(handles, vec![0, 1, 1, 1, 2, 4, 4, 7]);
    for earlier in 0..sizes.len() {
        for later in earlier + 1..sizes.len() {
            assert!(handles[later] >= handles[earlier]);
            if sizes[earlier] > 0 {
                assert!(handles[later] > handles[earlier]);
            }
        }
    }
}

#[test]
fn palette_handles_ascend_and_leave_the_other_cursors() {
    let mut vram = Vram::new();
    let sizes = [15usize, 0, 16, 17, 1, 0, 33];
    let mut handles = Vec::new();
    for n in sizes {
        handles.push(vram.load_obj_palette(&vec![0u16; n]));
        assert_eq!((vram.index, vram.obj_index, vram.bg_palette), (0, 0, 0));
    }
    assert_eq!(handles, vec![0, 1, 1, 2, 4, 5, 5]);
    assert_eq!(vram.obj_palette, 8);
}

#[test]
fn empty_blocks_leave_a_far_cursor_where_it_is() {
    let mut vram = Vram::new();
    vram.index = 70_000;
    assert_eq!(vram.load_4bpp_bg_texture(&[]), 4464);
    assert_eq!(vram.load_4bpp_bg_texture(&[]), 4464);
    assert_eq!(vram.index, 70_000);
}
