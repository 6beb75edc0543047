use voxel_capture::compare::{channels_used, check_dimensions, sample_count, segment_of, TransferSegment};
use voxel_capture::index3::Index3;
use voxel_capture::loaders::dat::{
    density, open_voxel_grid, parse_header, sample_values, DatError, DatHeader, SampleFormat,
};
use voxel_capture::loaders::netcdf::sample_offset;
use voxel_capture::voxel::grid::{GridError, VoxelGrid};
use voxel_capture::voxel::init::pyramid::init_grid_buffer_pyramid;

#[test]
fn header_with_all_keys() {
    let text = b"ObjectFileName: skull.raw\nTaggedFileName: ---\nResolution: 256 256 128\nSliceThickness: 1 1 1\nFormat: UCHAR\n";
    let header = parse_header(text).unwrap();
    assert_eq!(header.raw_file_name, b"skull.raw");
    assert_eq!(header.resolution, Index3::new(256, 256, 128));
    assert_eq!(header.format, SampleFormat::Byte);
}

#[test]
fn header_with_short_samples_and_windows_line_ends() {
    let text = b"ObjectFileName:\t head.raw \r\nResolution:  +4 05 6 extra\r\nFormat: USHORT\r\nFormat: UCHAR";
    let header = parse_header(text).unwrap();
    assert_eq!(header.raw_file_name, b"head.raw");
    assert_eq!(header.resolution, Index3::new(4, 5, 6));
    assert_eq!(header.format, SampleFormat::Short);
}

#[test]
fn later_line_overrides_earlier_one() {
    let text = b"ObjectFileName: a.raw\nResolution: 1 2 3\nObjectFileName: b.raw\nResolution: 7 8 9";
    let header = parse_header(text).unwrap();
    assert_eq!(header.raw_file_name, b"b.raw");
    assert_eq!(header.resolution, Index3::new(7, 8, 9));
}

#[test]
fn value_ends_at_the_second_colon() {
    let text = b"ObjectFileName: C:/data/a.raw\nResolution: 1 1 1";
    assert_eq!(parse_header(text).unwrap().raw_file_name, b"C");
}

#[test]
fn key_is_taken_as_it_stands() {
    let text = b" ObjectFileName: a.raw\nResolution: 1 1 1";
    assert!(matches!(parse_header(text), Err(DatError::MissingFileName)));
}

#[test]
fn line_without_colon_is_refused() {
    assert!(matches!(
        parse_header(b"ObjectFileName: a.raw\n\nResolution: 1 1 1"),
        Err(DatError::MissingSeparator)
    ));
    assert!(matches!(parse_header(b"just text"), Err(DatError::MissingSeparator)));
}

#[test]
fn bad_resolution_is_refused() {
    for text in [
        &b"Resolution: 1 2"[..],
        b"Resolution: ",
        b"Resolution: 1  2 3",
        b"Resolution: 1 2 x",
        b"Resolution: 1 -2 3",
        b"Resolution: 1 2 4294967296",
        b"Resolution: + 2 3",
        b"Resolution: 1,2,3",
    ] {
        assert!(matches!(parse_header(text), Err(DatError::BadResolution)));
    }
    let header = parse_header(b"ObjectFileName: a\nResolution: 1 2 4294967295").unwrap();
    assert_eq!(header.resolution.z, u32::MAX);
}

#[test]
fn missing_keys_are_reported() {
    assert!(matches!(parse_header(b""), Err(DatError::MissingFileName)));
    assert!(matches!(parse_header(b"Resolution: 1 1 1"), Err(DatError::MissingFileName)));
    assert!(matches!(parse_header(b"ObjectFileName: a.raw"), Err(DatError::MissingResolution)));
}

#[test]
fn samples_are_big_endian() {
    let bytes = DatHeader {
        raw_file_name: b"a".to_vec(),
        resolution: Index3::new(2, 1, 2),
        format: SampleFormat::Byte,
    };
    assert_eq!(sample_values(&bytes, &[1, 2, 3, 4, 5]), Ok(vec![1, 2, 3, 4]));
    assert_eq!(sample_values(&bytes, &[1, 2, 3]), Err(DatError::Truncated));
    let shorts = DatHeader {
        raw_file_name: b"a".to_vec(),
        resolution: Index3::new(2, 1, 1),
        format: SampleFormat::Short,
    };
    assert_eq!(sample_values(&shorts, &[0x12, 0x34, 0xFF, 0x01]), Ok(vec![0x1234, 0xFF01]));
    assert_eq!(sample_values(&shorts, &[0x12, 0x34, 0xFF]), Err(DatError::Truncated));
}

#[test]
fn density_matches_the_scaling_in_single_precision() {
    for value in 0..=255u16 {
        let expected = ((value as f32 / 255.0f32) * 255.0) as u8;
        assert_eq!(density(value, SampleFormat::Byte), expected);
    }
    for value in 0..=65535u16 {
        let expected = ((value as f32 / 65535.0f32) * 255.0) as u8;
        assert_eq!(density(value, SampleFormat::Short), expected);
    }
    assert_eq!(density(128, SampleFormat::Byte), 128);
    assert_eq!(density(256, SampleFormat::Short), 0);
    assert_eq!(density(257, SampleFormat::Short), 1);
    assert_eq!(density(65535, SampleFormat::Short), 255);
    assert_eq!(density(256, SampleFormat::Byte), 255);
}

#[test]
fn volume_is_loaded_as_gray_cells_in_file_order() {
    let header = parse_header(b"ObjectFileName: v.raw\nResolution: 2 2 2\nFormat: UCHAR").unwrap();
    let raw = [10u8, 20, 30, 40, 50, 60, 70, 80];
    let grid = open_voxel_grid(&header, &raw).unwrap();
    assert_eq!(grid.dimensions(), Index3::new(2, 2, 2));
    assert!(!grid.is_synced());
    assert_eq!(
        grid.update_transfer_function_buffer(),
        VoxelGrid::new(Index3::new(1, 1, 1)).unwrap().update_transfer_function_buffer()
    );
    assert_eq!(grid.index(Index3::new(0, 0, 0)).color, [10, 10, 10, 10]);
    assert_eq!(grid.index(Index3::new(1, 0, 0)).color, [20, 20, 20, 20]);
    assert_eq!(grid.index(Index3::new(0, 1, 0)).color, [30, 30, 30, 30]);
    assert_eq!(grid.index(Index3::new(0, 0, 1)).color, [50, 50, 50, 50]);
    assert_eq!(grid.index(Index3::new(1, 1, 1)).color, [80, 80, 80, 80]);
}

#[test]
fn short_volume_is_scaled_to_bytes() {
    let header = parse_header(b"ObjectFileName: v.raw\nResolution: 2 1 1\nFormat: USHORT").unwrap();
    let grid = open_voxel_grid(&header, &[0xFF, 0xFF, 0x80, 0x00]).unwrap();
    assert_eq!(grid.index(Index3::new(0, 0, 0)).color, [255, 255, 255, 255]);
    assert_eq!(grid.index(Index3::new(1, 0, 0)).color, [127, 127, 127, 127]);
}

#[test]
fn volume_that_cannot_be_loaded_is_refused() {
    let header = parse_header(b"ObjectFileName: v.raw\nResolution: 2 2 2").unwrap();
    assert!(matches!(open_voxel_grid(&header, &[0u8; 7]), Err(DatError::Truncated)));
    let header = parse_header(b"ObjectFileName: v.raw\nResolution: 2 0 2").unwrap();
    assert!(matches!(
        open_voxel_grid(&header, &[0u8; 8]),
        Err(DatError::Grid(GridError::ZeroDimension))
    ));
    let header =
        parse_header(b"ObjectFileName: v.raw\nResolution: 4294967295 4294967295 4294967295").unwrap();
    assert!(matches!(
        open_voxel_grid(&header, &[0u8; 8]),
        Err(DatError::Grid(GridError::TooLarge))
    ));
}

#[test]
fn pyramid_fills_shrinking_squares() {
    let mut grid = VoxelGrid::new(Index3::new(5, 3, 4)).unwrap();
    grid.set_color(Index3::new(0, 1, 0), [1, 2, 3, 4]);
    grid.update_buffer();
    assert_eq!(init_grid_buffer_pyramid(&mut grid), Ok(()));
    assert!(!grid.is_synced());
    for z in 0..4u32 {
        for y in 0..3u32 {
            for x in 0..5u32 {
                let inside = y <= x && x + y < 5 && y <= z && z + y < 3;
                let expected = if inside {
                    [255, 255, 255, 255]
                } else if (x, y, z) == (0, 1, 0) {
                    [1, 2, 3, 4]
                } else {
                    [0, 0, 0, 255]
                };
                assert_eq!(grid.index(Index3::new(x, y, z)).color, expected);
            }
        }
    }
    assert_eq!(grid.index(Index3::new(2, 1, 1)).color, [255, 255, 255, 255]);
    assert_eq!(grid.index(Index3::new(2, 2, 2)).color, [0, 0, 0, 255]);
}

#[test]
fn pyramid_that_does_not_fit_is_refused() {
    let mut grid = VoxelGrid::new(Index3::new(4, 4, 3)).unwrap();
    let before = grid.update_buffer();
    assert_eq!(init_grid_buffer_pyramid(&mut grid), Err(GridError::OutOfRange));
    assert!(grid.is_synced());
    assert_eq!(grid.update_buffer(), before);
}

#[test]
fn pyramid_in_a_narrow_grid() {
    let mut grid = VoxelGrid::new(Index3::new(1, 4, 4)).unwrap();
    assert_eq!(init_grid_buffer_pyramid(&mut grid), Ok(()));
    for z in 0..4u32 {
        assert_eq!(grid.index(Index3::new(0, 0, z)).color, [255, 255, 255, 255]);
        assert_eq!(grid.index(Index3::new(0, 1, z)).color, [0, 0, 0, 255]);
    }
}

#[test]
fn segment_follows_half_density() {
    assert_eq!(segment_of(0), TransferSegment::Lower);
    assert_eq!(segment_of(127), TransferSegment::Lower);
    assert_eq!(segment_of(128), TransferSegment::Upper);
    assert_eq!(segment_of(255), TransferSegment::Upper);
    for d in 0..=255u8 {
        let alpha = d as f32 / 255.0;
        let expected = if alpha < 0.5 { TransferSegment::Lower } else { TransferSegment::Upper };
        assert_eq!(segment_of(d), expected);
    }
}

#[test]
fn mean_is_taken_over_cells_times_channels() {
    let grid = VoxelGrid::new(Index3::new(2, 3, 4)).unwrap();
    assert_eq!(channels_used(true), 1);
    assert_eq!(channels_used(false), 4);
    assert_eq!(sample_count(&grid, true), 24);
    assert_eq!(sample_count(&grid, false), 96);
}

#[test]
fn reference_must_share_the_dimensions() {
    let grid = VoxelGrid::new(Index3::new(2, 3, 4)).unwrap();
    assert_eq!(check_dimensions(&grid, Index3::new(2, 3, 4)), Ok(()));
    assert_eq!(check_dimensions(&grid, Index3::new(2, 3, 5)), Err(GridError::DimensionMismatch));
    assert_eq!(check_dimensions(&grid, Index3::new(3, 2, 4)), Err(GridError::DimensionMismatch));
}

#[test]
fn netcdf_values_are_planes_in_grid_order() {
    let grid = VoxelGrid::new(Index3::new(2, 3, 4)).unwrap();
    assert_eq!(sample_offset(&grid, 0, Index3::new(0, 0, 0)), Ok(0));
    assert_eq!(sample_offset(&grid, 0, Index3::new(1, 0, 0)), Ok(1));
    assert_eq!(sample_offset(&grid, 0, Index3::new(0, 1, 0)), Ok(2));
    assert_eq!(sample_offset(&grid, 0, Index3::new(0, 0, 1)), Ok(6));
    assert_eq!(sample_offset(&grid, 1, Index3::new(0, 0, 0)), Ok(24));
    assert_eq!(sample_offset(&grid, 3, Index3::new(1, 2, 3)), Ok(((3 * 4 + 3) * 3 + 2) * 2 + 1));
    for c in 0..4usize {
        for z in 0..4u32 {
            for y in 0..3u32 {
                for x in 0..2u32 {
                    let p = Index3::new(x, y, z);
                    assert_eq!(
                        sample_offset(&grid, c, p).unwrap(),
                        c * 24 + grid.get_index(p)
                    );
                }
            }
        }
    }
    assert_eq!(sample_offset(&grid, 4, Index3::new(0, 0, 0)), Err(GridError::OutOfRange));
    assert_eq!(sample_offset(&grid, 0, Index3::new(2, 0, 0)), Err(GridError::OutOfRange));
}
