use pixboard::board::Board;
use pixboard::density::aggregate;
use pixboard::export::{build_doc, make_document};
use pixboard::svg_out::render_svg;

fn reference_board() -> Board {
    let mut b = Board::new();
    b.put_string("12\n34", 1, 1);
    b
}

#[test]
fn round_trip_bounds_and_grid() {
    // '1' and '3' sit at columns 1..5, '2' and '4' at columns 6..10; the
    // rightmost set pixel is in column 9. The second glyph row spans canvas
    // rows 8..14, and row 13 is non-empty.
    let b = reference_board();
    let (max_x, max_y) = b.find_max_used();
    assert_eq!((max_x, max_y), (10, 14));
    // one grid row per canvas row of the used region (3-row sliding
    // windows, no rounding), one column per used canvas column
    let grid = aggregate(&b, max_x, max_y);
    assert_eq!(grid.len(), 14);
    for row in &grid {
        assert_eq!(row.len(), 10);
    }
}

#[test]
fn document_dimensions_double_viewport() {
    let b = reference_board();
    let doc = make_document(&b).expect("the used region keeps the 3-row lookahead in range");
    assert_eq!(doc.width, (10 * 30 + 1) * 2);
    assert_eq!(doc.height, (14 * 30 + 1) * 2);
    assert_eq!(doc.view_width, 301);
    assert_eq!(doc.view_height, 421);
}

#[test]
fn document_labels_and_lines() {
    let b = reference_board();
    let doc = make_document(&b).unwrap();
    let grid = aggregate(&b, 10, 14);
    assert_eq!(doc.labels.len(), 14);
    for (y, row) in doc.labels.iter().enumerate() {
        assert_eq!(row.len(), 10);
        for (x, label) in row.iter().enumerate() {
            assert_eq!(label.x, x * 30 + 15);
            assert_eq!(label.y, y * 30 + 25);
            assert_eq!(label.value, grid[y][x]);
        }
    }
    assert_eq!(doc.h_lines.len(), 15);
    for (i, l) in doc.h_lines.iter().enumerate() {
        assert_eq!((l.x1, l.y1, l.x2, l.y2), (0, i * 30, 301, i * 30));
    }
    assert_eq!(doc.v_lines.len(), 11);
    for (i, l) in doc.v_lines.iter().enumerate() {
        assert_eq!((l.x1, l.y1, l.x2, l.y2), (i * 30, 0, i * 30, 421));
    }
}

#[test]
fn empty_board_document() {
    let b = Board::new();
    let doc = make_document(&b).unwrap();
    assert_eq!(doc.width, 2);
    assert_eq!(doc.height, 2);
    assert_eq!(doc.view_width, 1);
    assert_eq!(doc.view_height, 1);
    assert_eq!(doc.labels.len(), 0);
    assert_eq!(doc.h_lines.len(), 1);
    assert_eq!(doc.v_lines.len(), 1);
}

#[test]
fn document_refused_when_lookahead_leaves_canvas() {
    // '.' at (0, 26) sets canvas row 31, so the last block row would read
    // rows 31..34
    let mut b = Board::new();
    b.put_char('.', 0, 26);
    assert!(make_document(&b).is_none());
}

#[test]
fn rendered_svg_declares_doubled_size() {
    let b = reference_board();
    let doc = make_document(&b).unwrap();
    let rendered = render_svg(&doc).to_string();
    assert!(rendered.contains("width=\"602px\""), "{}", rendered);
    assert!(rendered.contains("height=\"842px\""), "{}", rendered);
    assert!(rendered.contains("viewBox=\"0 0 301 421\""), "{}", rendered);
    assert!(rendered.contains("font-family=\"Verdana\""));
    assert!(rendered.contains("stroke=\"blue\""));
    // one text element per density cell, one line per boundary
    assert_eq!(rendered.matches("<text").count(), 14 * 10);
    assert_eq!(rendered.matches("<line").count(), 15 + 11);
}

#[test]
fn rendered_svg_places_label_content() {
    // a full 3x3 block: its label reads 9 at the center of cell (0, 0)
    let mut b = Board::new();
    for c in ['8', '7', '0', '4'] {
        b.put_char(c, 0, 0);
    }
    let grid = aggregate(&b, 1, 1);
    let doc = build_doc(&grid, 1, 1);
    let rendered = render_svg(&doc).to_string();
    assert!(rendered.contains("x=\"15\""), "{}", rendered);
    assert!(rendered.contains("y=\"25\""), "{}", rendered);
    assert!(rendered.contains(">9<") || rendered.contains(">\n9\n<"), "{}", rendered);
}
