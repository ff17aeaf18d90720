use vivi::terminal_geometry::{
    cells_for_pixels, geometry_with_queried_cells, parse_csi_16t_response, probe_winsize, GeometryProbe,
    RawWinsize, TerminalGeometry,
};

#[test]
fn cell_count_rounds_up() {
    assert_eq!(cells_for_pixels(640, 10), 64);
    assert_eq!(cells_for_pixels(641, 10), 65);
}

#[test]
fn parses_cell_size_response() {
    assert_eq!(parse_csi_16t_response(b"noise\x1b[6;19;9t"), Some((9, 19)));
}

#[test]
fn cell_count_handles_zero_and_saturation() {
    assert_eq!(cells_for_pixels(0, 0), 1);
    assert_eq!(cells_for_pixels(0, 10), 1);
    assert_eq!(cells_for_pixels(u32::MAX, 10), 429_496_729);
    assert_eq!(cells_for_pixels(u32::MAX, 1), u32::MAX);
}

#[test]
fn geometry_clamps_every_dimension_to_one() {
    let geometry = TerminalGeometry::with_cell_size(0, 0, 0, 0);
    assert_eq!(
        geometry,
        TerminalGeometry { cols: 1, rows: 1, cell_width_px: 1, cell_height_px: 1 }
    );
    assert_eq!(
        TerminalGeometry::from_cells(80, 24),
        TerminalGeometry { cols: 80, rows: 24, cell_width_px: 10, cell_height_px: 20 }
    );
}

#[test]
fn drawable_area_keeps_one_cell_after_margins() {
    let geometry = TerminalGeometry::with_cell_size(80, 24, 10, 20);
    assert_eq!(geometry.drawable_width_px(4), 760);
    assert_eq!(geometry.drawable_height_px(2), 440);
    assert_eq!(geometry.drawable_width_px(200), 10);
    assert_eq!(geometry.drawable_height_px(24), 20);
}

#[test]
fn winsize_pixels_give_the_cell_size() {
    let winsize = RawWinsize { cols: 100, rows: 50, xpixel: 1_000, ypixel: 1_000 };
    assert_eq!(winsize.cell_size(), Some((10, 20)));
    let implausible = RawWinsize { cols: 100, rows: 50, xpixel: 150, ypixel: 1_000 };
    assert_eq!(implausible.cell_size(), None);
    let short = RawWinsize { cols: 100, rows: 50, xpixel: 1_000, ypixel: 199 };
    assert_eq!(short.cell_size(), None);
    let empty = RawWinsize { cols: 0, rows: 50, xpixel: 1_000, ypixel: 1_000 };
    assert_eq!(empty.cell_size(), None);
}

#[test]
fn probe_prefers_driver_counts_and_falls_back_to_queries() {
    let winsize = RawWinsize { cols: 100, rows: 50, xpixel: 1_000, ypixel: 1_000 };
    assert_eq!(
        probe_winsize(80, 24, Some(winsize)),
        GeometryProbe::Known(TerminalGeometry { cols: 100, rows: 50, cell_width_px: 10, cell_height_px: 20 })
    );
    let no_pixels = RawWinsize { cols: 100, rows: 50, xpixel: 0, ypixel: 0 };
    assert_eq!(probe_winsize(80, 24, Some(no_pixels)), GeometryProbe::NeedCellSize { cols: 100, rows: 50 });
    assert_eq!(probe_winsize(0, 24, None), GeometryProbe::NeedCellSize { cols: 1, rows: 24 });
    assert_eq!(
        geometry_with_queried_cells(80, 24, Some((9, 19))),
        TerminalGeometry { cols: 80, rows: 24, cell_width_px: 9, cell_height_px: 19 }
    );
    assert_eq!(geometry_with_queried_cells(80, 24, None), TerminalGeometry::from_cells(80, 24));
}

#[test]
fn cell_size_reply_edge_cases() {
    assert_eq!(parse_csi_16t_response(b"\x1b[6;20;10t"), Some((10, 20)));
    assert_eq!(parse_csi_16t_response(b"\x1b[6;+20;10;7t"), Some((10, 20)));
    assert_eq!(parse_csi_16t_response(b"\x1b[6;0;10t\x1b[6;18;8t"), Some((8, 18)));
    assert_eq!(parse_csi_16t_response(b"\x1b[6;20;10"), None);
    assert_eq!(parse_csi_16t_response(b"\x1b[6;20t"), None);
    assert_eq!(parse_csi_16t_response(b"\x1b[6;2x;10t\x1b[6;18;8t"), None);
    assert_eq!(parse_csi_16t_response(b"\x1b[6;20;4294967296t"), None);
    assert_eq!(parse_csi_16t_response(b"\xff\x1b[6;20;10t"), None);
    assert_eq!(parse_csi_16t_response(b""), None);
}
