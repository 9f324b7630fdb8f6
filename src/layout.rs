//! Where the menu is drawn: a bordered frame over the whole viewport, and inside
//! it a centred region for the item list, a quarter of the height off the top and
//! bottom and a fifth of the width off each side.
use vstd::prelude::*;

use crate::session::Viewport;
use ratatui::layout::{Constraint, Layout, Rect};
use ratatui::widgets::Block;

verus! {

/// A rectangle of character cells.
#[derive(PartialEq, Eq, Structural, Clone, Copy, Debug)]
pub struct Area {
    pub x: u16,
    pub y: u16,
    pub width: u16,
    pub height: u16,
}

impl View for Area {
    type V = (u16, u16, u16, u16);

    open spec fn view(&self) -> (u16, u16, u16, u16) {
        (self.x, self.y, self.width, self.height)
    }
}

pub open spec fn sat_add(a: u16, b: u16) -> u16 {
    if a + b > u16::MAX {
        u16::MAX
    } else {
        (a + b) as u16
    }
}

pub open spec fn sat_sub(a: u16, b: u16) -> u16 {
    if a >= b {
        (a - b) as u16
    } else {
        0
    }
}

pub open spec fn min16(a: u16, b: u16) -> u16 {
    if a <= b {
        a
    } else {
        b
    }
}

/// The inside of a frame with a border on all four sides.
pub open spec fn inner_of(a: Area) -> Area {
    Area {
        x: min16(sat_add(a.x, 1), sat_add(a.x, a.width)),
        y: min16(sat_add(a.y, 1), sat_add(a.y, a.height)),
        width: sat_sub(sat_sub(a.width, 1), 1),
        height: sat_sub(sat_sub(a.height, 1), 1),
    }
}

/// The middle one of the three bands into which ratatui's layout solver cuts
/// `area`, top to bottom when `vertical`, else left to right: `edge_percent`
/// percent, what remains, and `edge_percent` percent, for `edge_percent` at most
/// 50.
pub uninterp spec fn middle_band_of(area: (u16, u16, u16, u16), vertical: bool, edge_percent: u16) -> (u16, u16, u16, u16);

/// Relies on ratatui's `Block::inner` for a block bordered on all sides with no
/// padding: each border takes one cell, with saturating arithmetic.
#[verifier::external_body]
fn bordered_inner(a: Area) -> (r: Area)
    ensures
        r == inner_of(a),
{
    let r = Block::bordered().inner(Rect { x: a.x, y: a.y, width: a.width, height: a.height });
    Area { x: r.x, y: r.y, width: r.width, height: r.height }
}

/// Relies on ratatui's `Layout::areas` with the constraints percentage, fill,
/// percentage: where the two edges take at most half each, the constraints can all
/// be met, the solution is unique, and so depends on the area, direction and
/// percentage alone.
#[verifier::external_body]
fn middle_band(a: Area, vertical: bool, edge_percent: u16) -> (r: Area)
    requires
        edge_percent <= 50,
    ensures
        r@ == middle_band_of(a@, vertical, edge_percent),
{
    let edge = Constraint::Percentage(edge_percent);
    let cs = [edge, Constraint::Fill(1), edge];
    let layout = if vertical { Layout::vertical(cs) } else { Layout::horizontal(cs) };
    let [_, m, _] = layout.areas(Rect { x: a.x, y: a.y, width: a.width, height: a.height });
    Area { x: m.x, y: m.y, width: m.width, height: m.height }
}

/// The areas a menu is drawn in.
#[derive(PartialEq, Eq, Structural, Clone, Copy, Debug)]
pub struct MenuLayout {
    /// The whole viewport, where the outer frame goes.
    pub frame: Area,
    /// Inside the outer frame's border.
    pub body: Area,
    /// The centred region for the item list.
    pub list: Area,
}

pub open spec fn full_area(v: Viewport) -> Area {
    Area { x: 0, y: 0, width: v.width, height: v.height }
}

pub open spec fn menu_layout_of(v: Viewport) -> MenuLayout {
    let body = inner_of(full_area(v));
    let middle_row = middle_band_of(body@, true, 25);
    let list = middle_band_of(middle_row, false, 20);
    MenuLayout {
        frame: full_area(v),
        body,
        list: Area { x: list.0, y: list.1, width: list.2, height: list.3 },
    }
}

/// The layout of a menu drawn over `viewport`.
pub fn menu_layout(viewport: Viewport) -> (r: MenuLayout)
    ensures
        r == menu_layout_of(viewport),
{
    let frame = Area { x: 0, y: 0, width: viewport.width, height: viewport.height };
    let body = bordered_inner(frame);
    let row = middle_band(body, true, 25);
    let list = middle_band(row, false, 20);
    MenuLayout { frame, body, list }
}

} // verus!
