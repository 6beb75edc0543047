use voxel_capture::index3::Index3;
use voxel_capture::voxel::grid::{GridError, RaymarchTransferFunctionColors, VoxelGrid};
use voxel_capture::voxel::voxel::Voxel;

#[test]
fn voxel_default_is_black_and_opaque() {
    assert_eq!(Voxel::default().color, [0, 0, 0, 255]);
}

#[test]
fn voxel_set_color_replaces_all_channels() {
    let mut v = Voxel::default();
    v.set_color([1, 2, 3, 4]);
    assert_eq!(v.color, [1, 2, 3, 4]);
}

#[test]
fn new_grid_is_filled_with_default_voxels() {
    let grid = VoxelGrid::new(Index3::new(3, 3, 3)).unwrap();
    assert_eq!(grid.dimensions(), Index3::new(3, 3, 3));
    for z in 0..3 {
        for y in 0..3 {
            for x in 0..3 {
                assert_eq!(grid.index(Index3::new(x, y, z)).color, [0, 0, 0, 255]);
            }
        }
    }
}

#[test]
fn new_grid_rejects_zero_dimension() {
    assert!(matches!(VoxelGrid::new(Index3::new(0, 3, 3)), Err(GridError::ZeroDimension)));
    assert!(matches!(VoxelGrid::new(Index3::new(3, 0, 3)), Err(GridError::ZeroDimension)));
    assert!(matches!(VoxelGrid::new(Index3::new(3, 3, 0)), Err(GridError::ZeroDimension)));
}

#[test]
fn new_grid_rejects_unaddressable_size() {
    assert!(matches!(
        VoxelGrid::new(Index3::new(0x4000_0000, 1, 1)),
        Err(GridError::TooLarge)
    ));
    assert!(matches!(
        VoxelGrid::new(Index3::new(u32::MAX / 4, u32::MAX, u32::MAX)),
        Err(GridError::TooLarge)
    ));
}

#[test]
fn linear_index_is_x_fastest() {
    let grid = VoxelGrid::new(Index3::new(2, 3, 4)).unwrap();
    assert_eq!(grid.get_index(Index3::new(0, 0, 0)), 0);
    assert_eq!(grid.get_index(Index3::new(1, 0, 0)), 1);
    assert_eq!(grid.get_index(Index3::new(0, 1, 0)), 2);
    assert_eq!(grid.get_index(Index3::new(0, 0, 1)), 6);
    assert_eq!(grid.get_index(Index3::new(1, 2, 3)), 1 + 2 * (2 + 3 * 3));
}

#[test]
fn write_then_read_round_trips_everywhere() {
    let mut grid = VoxelGrid::new(Index3::new(3, 2, 4)).unwrap();
    for z in 0..4u32 {
        for y in 0..2u32 {
            for x in 0..3u32 {
                let color = [x as u8, y as u8, z as u8, (x + 3 * y + 6 * z) as u8];
                grid.set_color(Index3::new(x, y, z), color);
            }
        }
    }
    for z in 0..4u32 {
        for y in 0..2u32 {
            for x in 0..3u32 {
                let color = [x as u8, y as u8, z as u8, (x + 3 * y + 6 * z) as u8];
                assert_eq!(grid.index(Index3::new(x, y, z)).color, color);
            }
        }
    }
}

#[test]
fn positions_outside_the_grid_are_told_apart() {
    let grid = VoxelGrid::new(Index3::new(2, 2, 2)).unwrap();
    for z in 0..2 {
        for y in 0..2 {
            for x in 0..2 {
                assert!(grid.contains(Index3::new(x, y, z)));
            }
        }
    }
    for p in [
        Index3::new(2, 0, 0),
        Index3::new(0, 2, 0),
        Index3::new(0, 0, 2),
        Index3::new(9, 9, 9),
        Index3::new(u32::MAX, 0, 0),
    ] {
        assert!(!grid.contains(p));
    }
}

#[test]
fn write_leaves_every_other_cell_alone() {
    let mut grid = VoxelGrid::new(Index3::new(2, 2, 2)).unwrap();
    grid.set_color(Index3::new(0, 1, 0), [7, 7, 7, 7]);
    for z in 0..2 {
        for y in 0..2 {
            for x in 0..2 {
                let expected = if (x, y, z) == (0, 1, 0) { [7, 7, 7, 7] } else { [0, 0, 0, 255] };
                assert_eq!(grid.index(Index3::new(x, y, z)).color, expected);
            }
        }
    }
}

#[test]
fn upload_bytes_are_channels_in_flat_order() {
    let mut grid = VoxelGrid::new(Index3::new(2, 1, 2)).unwrap();
    grid.set_color(Index3::new(1, 0, 0), [1, 2, 3, 4]);
    grid.set_color(Index3::new(0, 0, 1), [5, 6, 7, 8]);
    assert!(!grid.is_synced());
    let bytes = grid.update_buffer();
    assert_eq!(bytes, vec![0, 0, 0, 255, 1, 2, 3, 4, 5, 6, 7, 8, 0, 0, 0, 255]);
    assert!(grid.is_synced());
    grid.set_color(Index3::new(0, 0, 0), [9, 9, 9, 9]);
    assert!(!grid.is_synced());
}

#[test]
fn texture_layout_has_four_bytes_per_texel() {
    let grid = VoxelGrid::new(Index3::new(5, 7, 9)).unwrap();
    let layout = grid.texture_layout();
    assert_eq!(layout.width, 5);
    assert_eq!(layout.height, 7);
    assert_eq!(layout.depth, 9);
    assert_eq!(layout.bytes_per_row, 20);
    assert_eq!(layout.rows_per_image, 7);
}

#[test]
fn fill_overwrites_every_cell_in_flat_order() {
    let mut grid = VoxelGrid::new(Index3::new(2, 2, 1)).unwrap();
    let colors = vec![[1, 1, 1, 1], [2, 2, 2, 2], [3, 3, 3, 3], [4, 4, 4, 4]];
    assert_eq!(grid.fill(&colors), Ok(()));
    assert_eq!(grid.index(Index3::new(1, 0, 0)).color, [2, 2, 2, 2]);
    assert_eq!(grid.index(Index3::new(0, 1, 0)).color, [3, 3, 3, 3]);
    assert_eq!(grid.fill(&vec![[0, 0, 0, 0]; 3]), Err(GridError::SizeMismatch));
    assert_eq!(grid.index(Index3::new(1, 1, 0)).color, [4, 4, 4, 4]);
}

#[test]
fn transfer_function_defaults_and_switch() {
    let mut colors = RaymarchTransferFunctionColors::new();
    assert_eq!(colors.color_a, [0.117f32.to_bits(), 0.188f32.to_bits(), 0.62f32.to_bits(), 1.0f32.to_bits()]);
    assert_eq!(colors.color_b, [0.7294f32.to_bits(), 0.7294f32.to_bits(), 0.7294f32.to_bits(), 1.0f32.to_bits()]);
    assert_eq!(colors.color_c, [0.5725f32.to_bits(), 0.0f32.to_bits(), 0.039f32.to_bits(), 1.0f32.to_bits()]);
    assert!(!colors.use_transfer_function_active());
    colors.set_transfer_function_active(true);
    assert!(colors.use_transfer_function_active());
    assert_eq!(colors.use_transfer_function, [1, 0, 0, 0]);
    colors.set_transfer_function_active(false);
    assert!(!colors.use_transfer_function_active());
}

#[test]
fn parameter_block_is_colors_then_switch() {
    let mut grid = VoxelGrid::new(Index3::new(1, 1, 1)).unwrap();
    let mut colors = grid.transfer_function_colors();
    colors.color_a = [1, 2, 3, 4];
    colors.color_b = [5, 6, 7, 8];
    colors.color_c = [9, 10, 11, 12];
    colors.set_transfer_function_active(true);
    grid.set_transfer_function_colors(colors);
    assert_eq!(
        grid.update_transfer_function_buffer(),
        vec![1, 2, 3, 4, 5, 6, 7, 8, 9, 10, 11, 12, 1, 0, 0, 0]
    );
}
