//! From positions on the screen to positions on the map image, and on to metres and
//! grid labels.

use vstd::prelude::*;
use crate::grid::{
    distance_pixels, format_grid_coord, grid_label, meters_to_px, meters_to_px_distance,
    px_to_meters, x_metres, x_pixels, y_metres, y_pixels, MAP_HEIGHT_M, MAP_HEIGHT_PX,
    MAP_WIDTH_M, MAP_WIDTH_PX,
};
use crate::units::{
    clamp, clamped, in_domain, lemma_scaled_monotonic, scale_wide, scaled, COORD_MAX, RATIO_MAX,
};
use crate::view::Rect;

verus! {

/// The map-image coordinate, on one axis of the given extent, of the screen offset
/// `container` in a container of width `container_w`, under the given zoom and pan. The
/// image fills the width of the container, so both axes share one scale. Positions
/// beside the image count as its nearest edge.
pub open spec fn image_coordinate(
    container: int,
    container_w: int,
    zoom: int,
    pan: int,
    extent: int,
) -> int {
    clamped(scaled(container - pan, MAP_WIDTH_PX * 1_000, zoom * container_w), 0, extent)
}

/// The map-image position of a screen position relative to the container; none where
/// the container has no width or the zoom is not positive.
pub open spec fn map_px_of(
    container: (int, int),
    container_w: int,
    zoom: int,
    pan: (int, int),
) -> Option<(i64, i64)> {
    if container_w <= 0 || zoom <= 0 {
        None
    } else {
        Some(
            (
                image_coordinate(container.0, container_w, zoom, pan.0, MAP_WIDTH_PX as int) as i64,
                image_coordinate(container.1, container_w, zoom, pan.1, MAP_HEIGHT_PX as int) as i64,
            ),
        )
    }
}

/// A screen position relative to the corner of the container.
pub fn client_to_container(client_x: i64, client_y: i64, rect_left: i64, rect_top: i64) -> (p: (
    i64,
    i64,
))
    requires
        in_domain(client_x as int),
        in_domain(client_y as int),
        in_domain(rect_left as int),
        in_domain(rect_top as int),
    ensures
        p.0 == client_x - rect_left,
        p.1 == client_y - rect_top,
{
    (client_x - rect_left, client_y - rect_top)
}

/// One image coordinate, from operands in 128 bits.
fn image_axis(container: i128, container_w: i64, zoom: i64, pan: i64, extent: i64) -> (out: i64)
    requires
        -0x1_0000_0000_0000_0000 <= container <= 0x1_0000_0000_0000_0000,
        0 < container_w,
        0 < zoom <= RATIO_MAX,
        0 <= extent,
    ensures
        out == image_coordinate(
            container as int,
            container_w as int,
            zoom as int,
            pan as int,
            extent as int,
        ),
        0 <= out <= extent,
{
    let c: i128 = container - pan as i128;
    assert(-0x2_0000_0000_0000_0000 * 1_024_000_000 <= c * 1_024_000_000
        <= 0x2_0000_0000_0000_0000 * 1_024_000_000) by (nonlinear_arith)
        requires
            -0x2_0000_0000_0000_0000 <= c <= 0x2_0000_0000_0000_0000,
    ;
    assert(0 < zoom * container_w <= 4_000_000_000_000_000_000 * 0x8000_0000_0000_0000)
        by (nonlinear_arith)
        requires
            0 < zoom <= 4_000_000_000_000_000_000,
            0 < container_w <= 0x8000_0000_0000_0000,
    ;
    let d: i128 = zoom as i128 * container_w as i128;
    let raw: i128 = scale_wide(c, 1_024_000_000, d);
    if raw < 0 {
        0
    } else if raw > extent as i128 {
        extent
    } else {
        raw as i64
    }
}

/// Converts a screen position relative to the container to a position on the map image,
/// undoing zoom and pan.
pub fn client_to_map_px_zoomed(
    container_x: i64,
    container_y: i64,
    container_w: i64,
    zoom: i64,
    pan_x: i64,
    pan_y: i64,
) -> (p: Option<(i64, i64)>)
    requires
        zoom <= RATIO_MAX,
    ensures
        p == map_px_of(
            (container_x as int, container_y as int),
            container_w as int,
            zoom as int,
            (pan_x as int, pan_y as int),
        ),
{
    if container_w <= 0 || zoom <= 0 {
        return None;
    }
    let x: i64 = image_axis(container_x as i128, container_w, zoom, pan_x, MAP_WIDTH_PX);
    let y: i64 = image_axis(container_y as i128, container_w, zoom, pan_y, MAP_HEIGHT_PX);
    Some((x, y))
}

/// Converts a position on the screen to a position on the map image, given where the
/// container is; none where there is no container.
pub fn click_to_map_px_zoomed(
    client_x: i64,
    client_y: i64,
    container: Option<Rect>,
    zoom: i64,
    pan_x: i64,
    pan_y: i64,
) -> (p: Option<(i64, i64)>)
    requires
        zoom <= RATIO_MAX,
    ensures
        p == match container {
            Some(rect) => map_px_of(
                (client_x - rect.left, client_y - rect.top),
                rect.width as int,
                zoom as int,
                (pan_x as int, pan_y as int),
            ),
            None => None,
        },
{
    match container {
        Some(rect) => {
            if rect.width <= 0 || zoom <= 0 {
                return None;
            }
            let cx: i128 = client_x as i128 - rect.left as i128;
            let cy: i128 = client_y as i128 - rect.top as i128;
            let x: i64 = image_axis(cx, rect.width, zoom, pan_x, MAP_WIDTH_PX);
            let y: i64 = image_axis(cy, rect.width, zoom, pan_y, MAP_HEIGHT_PX);
            Some((x, y))
        },
        None => None,
    }
}

/// Converts a position on the map image to metres.
pub fn map_px_to_meters(px_x: i64, px_y: i64) -> (m: (i64, i64))
    requires
        in_domain(px_x as int),
        in_domain(px_y as int),
    ensures
        m.0 == x_metres(px_x as int),
        m.1 == y_metres(px_y as int),
{
    px_to_meters(px_x, px_y)
}

/// Converts a position in metres to a position on the map image.
pub fn meters_to_map_px(m_x: i64, m_y: i64) -> (px: (i64, i64))
    ensures
        px.0 == x_pixels(m_x as int),
        px.1 == y_pixels(m_y as int),
{
    meters_to_px(m_x, m_y)
}

/// The grid label of a position on the map image.
pub fn format_px_as_grid(px_x: i64, px_y: i64) -> (label: String)
    ensures
        label@ == grid_label(x_metres(px_x as int), y_metres(px_y as int)),
{
    let cx: i64 = clamp(px_x, -COORD_MAX, COORD_MAX);
    let cy: i64 = clamp(px_y, -COORD_MAX, COORD_MAX);
    let (mx, my) = px_to_meters(cx, cy);
    proof {
        lemma_far_points_share_cells(px_x as int, 2184, 1024, MAP_WIDTH_M as int);
        lemma_far_points_share_cells(px_y as int, 1890, 888, MAP_HEIGHT_M as int);
    }
    format_grid_coord(mx, my)
}

/// A pixel offset beyond the coordinate domain lies, in metres, on the same side beyond
/// the map as the limit of the domain does.
proof fn lemma_far_points_share_cells(px: int, n: int, d: int, extent: int)
    requires
        0 < d <= n,
        10 <= extent <= COORD_MAX,
    ensures
        clamped(scaled(px, n, d), 0, extent - 10) == clamped(
            scaled(clamped(px, -COORD_MAX as int, COORD_MAX as int), n, d),
            0,
            extent - 10,
        ),
{
    if px > COORD_MAX {
        lemma_scaled_monotonic(COORD_MAX as int, px, n, d);
        assert(scaled(COORD_MAX as int, n, d) >= COORD_MAX) by (nonlinear_arith)
            requires
                0 < d <= n,
        ;
    } else if px < -COORD_MAX {
        lemma_scaled_monotonic(px, -COORD_MAX as int, n, d);
        assert(scaled(-COORD_MAX as int, n, d) <= 0) by (nonlinear_arith)
            requires
                0 < d <= n,
        ;
    }
}

/// Converts a distance in metres to pixels of the map image.
pub fn meters_to_image_px(meters: i64) -> (px: i64)
    ensures
        px == distance_pixels(meters as int),
{
    meters_to_px_distance(meters)
}

} // verus!
