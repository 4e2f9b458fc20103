//! Renders a [`VectorDoc`](crate::export::VectorDoc) into an `svg` document
//! element: the size and viewport attributes, one group of centered numeric
//! text labels, and one group of blue grid lines. Writing the element to a
//! file is left to the caller.
//!
//! The svg elements are opaque to the verifier, so their contents are named:
//! an attribute map and a child sequence per element kind. Each trusted
//! wrapper states exactly how the one call it makes changes those names, as
//! the svg crate's source shows (`set` inserts into the element's attribute
//! map, `add` appends a child, the constructors start empty), and
//! [`render_svg`] is then verified to deliver every attribute, label and
//! line of the document model.

use vstd::prelude::*;

use crate::export::GridLine;
use crate::export::TextLabel;
use crate::export::VectorDoc;

verus! {

#[verifier::external_type_specification]
#[verifier::external_body]
pub struct ExSvgElement(svg::node::element::SVG);

#[verifier::external_type_specification]
#[verifier::external_body]
pub struct ExSvgGroup(svg::node::element::Group);

#[verifier::external_type_specification]
#[verifier::external_body]
pub struct ExSvgLine(svg::node::element::Line);

#[verifier::external_type_specification]
#[verifier::external_body]
pub struct ExSvgText(svg::node::element::Text);

// The decimal rendering of a number, as std's formatting produces it. The
// svg crate turns a numeric attribute value into exactly this string.
pub uninterp spec fn num_text(v: usize) -> Seq<char>;

// The decimal rendering of a label value, as u32::to_string produces it.
pub uninterp spec fn dec_text(v: u32) -> Seq<char>;

// The attribute map of an svg document element.
pub uninterp spec fn svg_attrs(d: svg::node::element::SVG) -> Map<Seq<char>, Seq<char>>;

// The group children of an svg document element, each as its attribute map,
// its text children (attribute map and content each) and its line children
// (attribute map each).
pub uninterp spec fn svg_group_children(d: svg::node::element::SVG) -> Seq<
    (Map<Seq<char>, Seq<char>>, Seq<(Map<Seq<char>, Seq<char>>, Seq<char>)>, Seq<
        Map<Seq<char>, Seq<char>>,
    >),
>;

// The attribute map of a group element.
pub uninterp spec fn group_attrs(g: svg::node::element::Group) -> Map<Seq<char>, Seq<char>>;

// The text children of a group element, in order: each one's attribute map
// and content.
pub uninterp spec fn group_texts(g: svg::node::element::Group) -> Seq<
    (Map<Seq<char>, Seq<char>>, Seq<char>),
>;

// The line children of a group element, in order: each one's attribute map.
pub uninterp spec fn group_lines(g: svg::node::element::Group) -> Seq<Map<Seq<char>, Seq<char>>>;

// The attribute map of a text element.
pub uninterp spec fn text_attrs(t: svg::node::element::Text) -> Map<Seq<char>, Seq<char>>;

// The character content of a text element.
pub uninterp spec fn text_content(t: svg::node::element::Text) -> Seq<char>;

// The attribute map of a line element.
pub uninterp spec fn line_attrs(l: svg::node::element::Line) -> Map<Seq<char>, Seq<char>>;

/// An empty attribute map.
pub open spec fn no_attrs() -> Map<Seq<char>, Seq<char>> {
    Map::empty()
}

/// An empty sequence of text children.
pub open spec fn no_texts() -> Seq<(Map<Seq<char>, Seq<char>>, Seq<char>)> {
    Seq::empty()
}

/// An empty sequence of line children.
pub open spec fn no_lines() -> Seq<Map<Seq<char>, Seq<char>>> {
    Seq::empty()
}

/// An empty sequence of group children.
pub open spec fn no_groups() -> Seq<
    (Map<Seq<char>, Seq<char>>, Seq<(Map<Seq<char>, Seq<char>>, Seq<char>)>, Seq<
        Map<Seq<char>, Seq<char>>,
    >),
> {
    Seq::empty()
}

/// Relies on svg::node::element::SVG::new: a fresh svg element with no
/// children whose only attribute is the xmlns namespace declaration.
#[verifier::external_body]
fn doc_new() -> (r: svg::node::element::SVG)
    ensures
        svg_attrs(r) == no_attrs().insert("xmlns"@, "http://www.w3.org/2000/svg"@),
        svg_group_children(r) == no_groups(),
{
    svg::node::element::SVG::new()
}

/// Relies on svg::node::element::SVG::set: inserts into the attribute map,
/// under `name`, the decimal rendering of `v` suffixed with `px`; the
/// children stay as they were.
#[verifier::external_body]
fn doc_set_px(d: svg::node::element::SVG, name: &str, v: usize) -> (r: svg::node::element::SVG)
    ensures
        svg_attrs(r) == svg_attrs(d).insert(name@, num_text(v) + "px"@),
        svg_group_children(r) == svg_group_children(d),
{
    d.set(name, format!("{}px", v))
}

/// Relies on svg::node::element::SVG::set: inserts into the attribute map,
/// under `name`, the four numbers rendered as a space-separated list; the
/// children stay as they were.
#[verifier::external_body]
fn doc_set_quad(
    d: svg::node::element::SVG,
    name: &str,
    a: usize,
    b: usize,
    w: usize,
    h: usize,
) -> (r: svg::node::element::SVG)
    ensures
        svg_attrs(r) == svg_attrs(d).insert(
            name@,
            num_text(a) + " "@ + num_text(b) + " "@ + num_text(w) + " "@ + num_text(h),
        ),
        svg_group_children(r) == svg_group_children(d),
{
    d.set(name, (a, b, w, h))
}

/// Relies on svg::node::element::SVG::add: appends the group as a child;
/// the attributes stay as they were.
#[verifier::external_body]
fn doc_add_group(
    d: svg::node::element::SVG,
    g: svg::node::element::Group,
) -> (r: svg::node::element::SVG)
    ensures
        svg_attrs(r) == svg_attrs(d),
        svg_group_children(r) == svg_group_children(d).push(
            (group_attrs(g), group_texts(g), group_lines(g)),
        ),
{
    d.add(g)
}

/// Relies on svg::node::element::Group::new: a fresh group element with no
/// attributes and no children.
#[verifier::external_body]
fn group_new() -> (r: svg::node::element::Group)
    ensures
        group_attrs(r) == no_attrs(),
        group_texts(r) == no_texts(),
        group_lines(r) == no_lines(),
{
    svg::node::element::Group::new()
}

/// Relies on svg::node::element::Group::set: inserts the string value into
/// the attribute map under `name`; the children stay as they were.
#[verifier::external_body]
fn group_set_str(g: svg::node::element::Group, name: &str, v: &str) -> (r: svg::node::element::Group)
    ensures
        group_attrs(r) == group_attrs(g).insert(name@, v@),
        group_texts(r) == group_texts(g),
        group_lines(r) == group_lines(g),
{
    g.set(name, v)
}

/// Relies on svg::node::element::Group::set: inserts the decimal rendering
/// of `v` into the attribute map under `name`; the children stay as they
/// were.
#[verifier::external_body]
fn group_set_num(g: svg::node::element::Group, name: &str, v: usize) -> (r: svg::node::element::Group)
    ensures
        group_attrs(r) == group_attrs(g).insert(name@, num_text(v)),
        group_texts(r) == group_texts(g),
        group_lines(r) == group_lines(g),
{
    g.set(name, v)
}

/// Relies on svg::node::element::Group::add: appends the text element as a
/// child; the attributes and the line children stay as they were.
#[verifier::external_body]
fn group_add_text(
    g: svg::node::element::Group,
    t: svg::node::element::Text,
) -> (r: svg::node::element::Group)
    ensures
        group_attrs(r) == group_attrs(g),
        group_texts(r) == group_texts(g).push((text_attrs(t), text_content(t))),
        group_lines(r) == group_lines(g),
{
    g.add(t)
}

/// Relies on svg::node::element::Group::add: appends the line element as a
/// child; the attributes and the text children stay as they were.
#[verifier::external_body]
fn group_add_line(
    g: svg::node::element::Group,
    l: svg::node::element::Line,
) -> (r: svg::node::element::Group)
    ensures
        group_attrs(r) == group_attrs(g),
        group_texts(r) == group_texts(g),
        group_lines(r) == group_lines(g).push(line_attrs(l)),
{
    g.add(l)
}

/// Relies on svg::node::element::Text::new: a text element with no
/// attributes whose content is the decimal rendering of `v`.
#[verifier::external_body]
fn text_new_number(v: u32) -> (r: svg::node::element::Text)
    ensures
        text_attrs(r) == no_attrs(),
        text_content(r) == dec_text(v),
{
    svg::node::element::Text::new(v.to_string())
}

/// Relies on svg::node::element::Text::set: inserts the decimal rendering
/// of `v` into the attribute map under `name`; the content stays as it was.
#[verifier::external_body]
fn text_set_num(t: svg::node::element::Text, name: &str, v: usize) -> (r: svg::node::element::Text)
    ensures
        text_attrs(r) == text_attrs(t).insert(name@, num_text(v)),
        text_content(r) == text_content(t),
{
    t.set(name, v)
}

/// Relies on svg::node::element::Line::new: a fresh line element with no
/// attributes.
#[verifier::external_body]
fn line_new() -> (r: svg::node::element::Line)
    ensures
        line_attrs(r) == no_attrs(),
{
    svg::node::element::Line::new()
}

/// Relies on svg::node::element::Line::set: inserts the decimal rendering
/// of `v` into the attribute map under `name`.
#[verifier::external_body]
fn line_set_num(l: svg::node::element::Line, name: &str, v: usize) -> (r: svg::node::element::Line)
    ensures
        line_attrs(r) == line_attrs(l).insert(name@, num_text(v)),
{
    l.set(name, v)
}

/// The attribute map the rendered document element carries: the namespace,
/// the pixel width and height (doubled viewport, already so in the model),
/// and the viewport.
pub open spec fn spec_svg_attrs(doc: VectorDoc) -> Map<Seq<char>, Seq<char>> {
    no_attrs().insert("xmlns"@, "http://www.w3.org/2000/svg"@).insert(
        "width"@,
        num_text(doc.width) + "px"@,
    ).insert("height"@, num_text(doc.height) + "px"@).insert(
        "viewBox"@,
        num_text(0) + " "@ + num_text(0) + " "@ + num_text(doc.view_width) + " "@ + num_text(
            doc.view_height,
        ),
    )
}

/// The attribute map of the label group: Verdana 24, centered anchors.
pub open spec fn spec_values_attrs() -> Map<Seq<char>, Seq<char>> {
    no_attrs().insert("font-family"@, "Verdana"@).insert(
        "font-size"@,
        num_text(24),
    ).insert("text-anchor"@, "middle"@)
}

/// The attribute map of the grid line group: blue strokes of width 1.
pub open spec fn spec_grid_attrs() -> Map<Seq<char>, Seq<char>> {
    no_attrs().insert("stroke-width"@, num_text(1)).insert(
        "stroke"@,
        "blue"@,
    )
}

/// A label as a rendered text child: its position attributes and its
/// decimal content.
pub open spec fn spec_text_entry(l: TextLabel) -> (Map<Seq<char>, Seq<char>>, Seq<char>) {
    (
        no_attrs().insert("x"@, num_text(l.x)).insert(
            "y"@,
            num_text(l.y),
        ),
        dec_text(l.value),
    )
}

/// One row of labels as rendered text children, left to right.
pub open spec fn spec_row_entries(row: Seq<TextLabel>) -> Seq<
    (Map<Seq<char>, Seq<char>>, Seq<char>),
> {
    Seq::new(row.len(), |i: int| spec_text_entry(row[i]))
}

/// The first `y` label rows as rendered text children, row-major.
pub open spec fn spec_label_entries(labels: Seq<Vec<TextLabel>>, y: int) -> Seq<
    (Map<Seq<char>, Seq<char>>, Seq<char>),
>
    recommends
        0 <= y <= labels.len(),
    decreases y,
{
    if y <= 0 {
        Seq::empty()
    } else {
        spec_label_entries(labels, y - 1) + spec_row_entries(labels[y - 1]@)
    }
}

/// A grid line as a rendered line child: its endpoint attributes.
pub open spec fn spec_line_entry(l: GridLine) -> Map<Seq<char>, Seq<char>> {
    no_attrs().insert("x1"@, num_text(l.x1)).insert(
        "y1"@,
        num_text(l.y1),
    ).insert("x2"@, num_text(l.x2)).insert("y2"@, num_text(l.y2))
}

/// The first `n` grid lines as rendered line children, in order.
pub open spec fn spec_line_entries(ls: Seq<GridLine>, n: int) -> Seq<Map<Seq<char>, Seq<char>>>
    recommends
        0 <= n <= ls.len(),
{
    Seq::new(n as nat, |i: int| spec_line_entry(ls[i]))
}

/// The label group the rendered document carries: its style attributes and
/// one text child per density cell, row-major.
pub open spec fn spec_values_group(labels: Seq<Vec<TextLabel>>) -> (
    Map<Seq<char>, Seq<char>>,
    Seq<(Map<Seq<char>, Seq<char>>, Seq<char>)>,
    Seq<Map<Seq<char>, Seq<char>>>,
) {
    (
        spec_values_attrs(),
        spec_label_entries(labels, labels.len() as int),
        no_lines(),
    )
}

/// The line group the rendered document carries: its stroke attributes and
/// one line child per boundary, the horizontal lines first.
pub open spec fn spec_grid_group(h: Seq<GridLine>, v: Seq<GridLine>) -> (
    Map<Seq<char>, Seq<char>>,
    Seq<(Map<Seq<char>, Seq<char>>, Seq<char>)>,
    Seq<Map<Seq<char>, Seq<char>>>,
) {
    (
        spec_grid_attrs(),
        no_texts(),
        spec_line_entries(h, h.len() as int) + spec_line_entries(v, v.len() as int),
    )
}

/// Builds the svg element for a document model: the declared width and
/// height in pixels, the viewport, a group of labels in Verdana 24 anchored
/// at their centers, and a group of blue grid lines of stroke width 1.
pub fn render_svg(doc: &VectorDoc) -> (r: svg::node::element::SVG)
    ensures
        svg_attrs(r) == spec_svg_attrs(*doc),
        svg_group_children(r) == seq![
            spec_values_group(doc.labels@),
            spec_grid_group(doc.h_lines@, doc.v_lines@),
        ],
{
    let mut d = doc_new();
    d = doc_set_px(d, "width", doc.width);
    d = doc_set_px(d, "height", doc.height);
    d = doc_set_quad(d, "viewBox", 0, 0, doc.view_width, doc.view_height);
    let mut values = group_new();
    values = group_set_str(values, "font-family", "Verdana");
    values = group_set_num(values, "font-size", 24);
    values = group_set_str(values, "text-anchor", "middle");
    let mut y: usize = 0;
    while y < doc.labels.len()
        invariant
            group_attrs(values) == spec_values_attrs(),
            group_lines(values) == no_lines(),
            y <= doc.labels@.len(),
            group_texts(values) == spec_label_entries(doc.labels@, y as int),
        decreases doc.labels@.len() - y,
    {
        let line = &doc.labels[y];
        let mut x: usize = 0;
        while x < line.len()
            invariant
                group_attrs(values) == spec_values_attrs(),
                group_lines(values) == no_lines(),
                y < doc.labels@.len(),
                line@ == doc.labels@[y as int]@,
                x <= line@.len(),
                group_texts(values) == spec_label_entries(doc.labels@, y as int)
                    + spec_row_entries(line@).take(x as int),
            decreases line@.len() - x,
        {
            let label = line[x];
            let mut t = text_new_number(label.value);
            t = text_set_num(t, "x", label.x);
            t = text_set_num(t, "y", label.y);
            values = group_add_text(values, t);
            proof {
                assert(spec_row_entries(line@).take(x as int + 1) =~= spec_row_entries(
                    line@,
                ).take(x as int).push(spec_text_entry(line@[x as int])));
            }
            x = x + 1;
        }
        proof {
            assert(spec_row_entries(line@).take(line@.len() as int) =~= spec_row_entries(line@));
        }
        y = y + 1;
    }
    d = doc_add_group(d, values);
    let mut lines = group_new();
    lines = group_set_num(lines, "stroke-width", 1);
    lines = group_set_str(lines, "stroke", "blue");
    let mut i: usize = 0;
    proof {
        assert(group_lines(lines) =~= spec_line_entries(doc.h_lines@, 0));
    }
    while i < doc.h_lines.len()
        invariant
            group_attrs(lines) == spec_grid_attrs(),
            group_texts(lines) == no_texts(),
            i <= doc.h_lines@.len(),
            group_lines(lines) == spec_line_entries(doc.h_lines@, i as int),
        decreases doc.h_lines@.len() - i,
    {
        let gl = doc.h_lines[i];
        let mut l = line_new();
        l = line_set_num(l, "x1", gl.x1);
        l = line_set_num(l, "y1", gl.y1);
        l = line_set_num(l, "x2", gl.x2);
        l = line_set_num(l, "y2", gl.y2);
        lines = group_add_line(lines, l);
        proof {
            assert(spec_line_entries(doc.h_lines@, i as int + 1) =~= spec_line_entries(
                doc.h_lines@,
                i as int,
            ).push(spec_line_entry(doc.h_lines@[i as int])));
        }
        i = i + 1;
    }
    let ghost h_entries = spec_line_entries(doc.h_lines@, doc.h_lines@.len() as int);
    let mut k: usize = 0;
    proof {
        assert(group_lines(lines) =~= h_entries + spec_line_entries(doc.v_lines@, 0));
    }
    while k < doc.v_lines.len()
        invariant
            group_attrs(lines) == spec_grid_attrs(),
            group_texts(lines) == no_texts(),
            k <= doc.v_lines@.len(),
            h_entries == spec_line_entries(doc.h_lines@, doc.h_lines@.len() as int),
            group_lines(lines) == h_entries + spec_line_entries(doc.v_lines@, k as int),
        decreases doc.v_lines@.len() - k,
    {
        let gl = doc.v_lines[k];
        let mut l = line_new();
        l = line_set_num(l, "x1", gl.x1);
        l = line_set_num(l, "y1", gl.y1);
        l = line_set_num(l, "x2", gl.x2);
        l = line_set_num(l, "y2", gl.y2);
        lines = group_add_line(lines, l);
        proof {
            assert(h_entries + spec_line_entries(doc.v_lines@, k as int + 1) =~= (h_entries
                + spec_line_entries(doc.v_lines@, k as int)).push(spec_line_entry(
                doc.v_lines@[k as int],
            )));
        }
        k = k + 1;
    }
    d = doc_add_group(d, lines);
    proof {
        assert(svg_group_children(d) =~= seq![
            spec_values_group(doc.labels@),
            spec_grid_group(doc.h_lines@, doc.v_lines@),
        ]);
    }
    d
}

} // verus!
