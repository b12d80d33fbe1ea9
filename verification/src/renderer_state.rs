use vstd::prelude::*;
use crate::image_data::LoadedImageData;

verus! {

/// The number of vertices of the two triangles that cover the image.
pub const QUAD_VERTEX_COUNT: u32 = 6;

/// A width and a height in pixels.
#[derive(Clone, Copy, PartialEq, Eq, Structural, Debug)]
pub struct Extent {
    pub width: u32,
    pub height: u32,
}

/// `v`, but no more than `max_dim`.
pub open spec fn clamp_to(v: u32, max_dim: u32) -> u32 {
    if v <= max_dim { v } else { max_dim }
}

/// The side a window of side `v` starts with: at least one pixel, and no
/// more than the largest texture the device takes.
pub open spec fn initial_side(v: u32, max_dim: u32) -> u32 {
    clamp_to(if v >= 1 { v } else { 1 }, max_dim)
}

/// The state of a renderer that is not on the GPU: the size of the drawing
/// surface, the device's texture limit, the size of the image shown (if
/// any) and whether a drag is under way.
pub struct RendererView {
    pub surface: Extent,
    pub max_texture_dim: u32,
    pub image: Option<Extent>,
    pub dragging: bool,
}

impl RendererView {
    /// The surface never exceeds the texture limit, and is never empty where
    /// the limit allows a pixel.
    pub open spec fn wf(self) -> bool {
        &&& self.surface.width <= self.max_texture_dim
        &&& self.surface.height <= self.max_texture_dim
        &&& self.max_texture_dim >= 1 ==> self.surface.width >= 1 && self.surface.height >= 1
    }

    /// A new renderer for a window of `width` by `height` pixels.
    pub open spec fn initial(width: u32, height: u32, max_texture_dim: u32, image: Option<Extent>) -> RendererView {
        RendererView {
            surface: Extent {
                width: initial_side(width, max_texture_dim),
                height: initial_side(height, max_texture_dim),
            },
            max_texture_dim,
            image,
            dragging: false,
        }
    }

    /// The state after the window reports `width` by `height`: an empty size
    /// changes nothing, any other is clamped to the texture limit.
    pub open spec fn resized(self, width: u32, height: u32) -> RendererView {
        if width == 0 || height == 0 {
            self
        } else {
            RendererView {
                surface: Extent {
                    width: clamp_to(width, self.max_texture_dim),
                    height: clamp_to(height, self.max_texture_dim),
                },
                max_texture_dim: self.max_texture_dim,
                image: self.image,
                dragging: self.dragging,
            }
        }
    }

    /// The state after an image of the given size replaces the one shown.
    pub open spec fn showing(self, image: Extent) -> RendererView {
        RendererView {
            surface: self.surface,
            max_texture_dim: self.max_texture_dim,
            image: Some(image),
            dragging: self.dragging,
        }
    }

    /// The state with the drag flag set to `dragging`.
    pub open spec fn with_dragging(self, dragging: bool) -> RendererView {
        RendererView {
            surface: self.surface,
            max_texture_dim: self.max_texture_dim,
            image: self.image,
            dragging,
        }
    }
}

/// The part of a renderer that lives on the CPU and decides what the GPU
/// side does.
pub struct RendererState {
    surface: Extent,
    max_texture_dim: u32,
    image: Option<Extent>,
    dragging: bool,
}

impl View for RendererState {
    type V = RendererView;

    closed spec fn view(&self) -> RendererView {
        RendererView {
            surface: self.surface,
            max_texture_dim: self.max_texture_dim,
            image: self.image,
            dragging: self.dragging,
        }
    }
}

/// The sizes the base scale of the image is computed from: one image pixel
/// on one surface pixel. Without an image the image side is zero.
#[derive(Clone, Copy, PartialEq, Eq, Structural, Debug)]
pub struct ScaleBasis {
    pub surface: Extent,
    pub image: Extent,
}

/// What a resize asks of the GPU side.
#[derive(Clone, Copy, PartialEq, Eq, Structural, Debug)]
pub enum ResizeOutcome {
    /// The window reported an empty size: nothing changes.
    Ignored,
    /// Reconfigure the surface at `surface`; where an image is shown,
    /// recompute its base scale from `rescale`; then upload the uniforms.
    Applied { surface: Extent, rescale: Option<ScaleBasis> },
}

/// How the GPU copies an image into a texture.
#[derive(Clone, Copy, PartialEq, Eq, Structural, Debug)]
pub struct TextureUpload {
    pub width: u32,
    pub height: u32,
    pub depth_or_array_layers: u32,
    pub bytes_per_row: u32,
    pub rows_per_image: u32,
}

/// What acquiring the next surface texture gave.
#[derive(Clone, Copy, PartialEq, Eq, Structural, Debug)]
pub enum SurfaceStatus {
    Success,
    Suboptimal,
    Timeout,
    Occluded,
    Outdated,
    Lost,
    Validation,
}

/// A draw of `vertex_count` vertices in `instance_count` instances.
#[derive(Clone, Copy, PartialEq, Eq, Structural, Debug)]
pub struct DrawCall {
    pub vertex_count: u32,
    pub instance_count: u32,
}

/// What one frame does.
#[derive(Clone, Copy, PartialEq, Eq, Structural, Debug)]
pub enum FrameStep {
    /// Clear the frame and, if `draw` is set, draw the image; then present.
    Draw { draw: Option<DrawCall> },
    /// Skip this frame.
    Skip,
    /// Drop the texture (if any), configure the surface again, skip the frame.
    Reconfigure,
    /// Create the surface anew, configure it, skip the frame.
    RecreateSurface,
}

/// The draw call of a frame showing `image`: the quad, once, where an image
/// is shown.
pub open spec fn frame_draw(image: Option<Extent>) -> Option<DrawCall> {
    match image {
        Some(_) => Some(DrawCall { vertex_count: QUAD_VERTEX_COUNT, instance_count: 1 }),
        None => None,
    }
}

/// What a frame does for each status of the surface but `Validation`.
pub open spec fn frame_step(status: SurfaceStatus, image: Option<Extent>) -> FrameStep {
    match status {
        SurfaceStatus::Success => FrameStep::Draw { draw: frame_draw(image) },
        SurfaceStatus::Suboptimal | SurfaceStatus::Outdated => FrameStep::Reconfigure,
        SurfaceStatus::Lost => FrameStep::RecreateSurface,
        _ => FrameStep::Skip,
    }
}

/// The copy layout for an image of `width` by `height` RGBA8 pixels.
pub open spec fn upload_layout(width: u32, height: u32) -> TextureUpload {
    TextureUpload {
        width,
        height,
        depth_or_array_layers: 1,
        bytes_per_row: (4 * width) as u32,
        rows_per_image: height,
    }
}

impl RendererState {
    #[verifier::type_invariant]
    spec fn inv(self) -> bool {
        self@.wf()
    }

    /// A renderer for a window of `window_width` by `window_height` pixels on
    /// a device whose textures have at most `max_texture_dim` pixels a side,
    /// showing an image of size `image` if one was loaded.
    pub fn new(window_width: u32, window_height: u32, max_texture_dim: u32, image: Option<Extent>) -> (r: RendererState)
        ensures
            r@ == RendererView::initial(window_width, window_height, max_texture_dim, image),
            r@.wf(),
            r@.image == image,
            !r@.dragging,
            r@.max_texture_dim == max_texture_dim,
            1 <= window_width <= max_texture_dim ==> r@.surface.width == window_width,
            1 <= window_height <= max_texture_dim ==> r@.surface.height == window_height,
            window_width > max_texture_dim ==> r@.surface.width == max_texture_dim,
            window_height > max_texture_dim ==> r@.surface.height == max_texture_dim,
            window_width == 0 ==> r@.surface.width == (if max_texture_dim >= 1 { 1u32 } else { 0u32 }),
            window_height == 0 ==> r@.surface.height == (if max_texture_dim >= 1 { 1u32 } else { 0u32 }),
    {
        let w = if window_width >= 1 { window_width } else { 1 };
        let h = if window_height >= 1 { window_height } else { 1 };
        let surface = Extent {
            width: if w <= max_texture_dim { w } else { max_texture_dim },
            height: if h <= max_texture_dim { h } else { max_texture_dim },
        };
        RendererState { surface, max_texture_dim, image, dragging: false }
    }

    /// The size of the drawing surface.
    pub fn surface(&self) -> (r: Extent)
        ensures
            r == self@.surface,
            self@.wf(),
    {
        proof { use_type_invariant(self); }
        self.surface
    }

    /// The largest side of a texture on this device.
    pub fn max_texture_dim(&self) -> (r: u32)
        ensures
            r == self@.max_texture_dim,
    {
        self.max_texture_dim
    }

    /// The size of the image shown, if any.
    pub fn image(&self) -> (r: Option<Extent>)
        ensures
            r == self@.image,
    {
        self.image
    }

    /// Whether a drag is under way.
    pub fn is_dragging(&self) -> (r: bool)
        ensures
            r == self@.dragging,
    {
        self.dragging
    }

    /// The sizes the base scale is computed from.
    pub fn scale_basis(&self) -> (r: ScaleBasis)
        ensures
            r.surface == self@.surface,
            r.image == (match self@.image {
                Some(e) => e,
                None => Extent { width: 0, height: 0 },
            }),
    {
        let image = match self.image {
            Some(e) => e,
            None => Extent { width: 0, height: 0 },
        };
        ScaleBasis { surface: self.surface, image }
    }

    /// The window now measures `width` by `height` pixels.
    pub fn resize(&mut self, width: u32, height: u32) -> (r: ResizeOutcome)
        ensures
            final(self)@ == old(self)@.resized(width, height),
            final(self)@.wf(),
            (width == 0 || height == 0) <==> r is Ignored,
            r matches ResizeOutcome::Applied { surface, rescale } ==> {
                &&& surface == final(self)@.surface
                &&& rescale == (match old(self)@.image {
                    Some(e) => Some(ScaleBasis { surface, image: e }),
                    None => None,
                })
            },
    {
        proof { use_type_invariant(&*self); }
        if width == 0 || height == 0 {
            return ResizeOutcome::Ignored;
        }
        let max_dim = self.max_texture_dim;
        let surface = Extent {
            width: if width <= max_dim { width } else { max_dim },
            height: if height <= max_dim { height } else { max_dim },
        };
        self.surface = surface;
        let rescale = match self.image {
            Some(e) => Some(ScaleBasis { surface, image: e }),
            None => None,
        };
        ResizeOutcome::Applied { surface, rescale }
    }

    /// A newly loaded image replaces the one shown. Gives the sizes its base
    /// scale is computed from.
    pub fn apply_loaded_image(&mut self, data: &LoadedImageData) -> (r: ScaleBasis)
        ensures
            final(self)@ == old(self)@.showing(Extent { width: data.width, height: data.height }),
            r == (ScaleBasis { surface: old(self)@.surface, image: Extent { width: data.width, height: data.height } }),
    {
        proof { use_type_invariant(&*self); }
        let image = Extent { width: data.width, height: data.height };
        self.image = Some(image);
        ScaleBasis { surface: self.surface, image }
    }

    /// A drag begins.
    pub fn start_drag(&mut self)
        ensures
            final(self)@ == old(self)@.with_dragging(true),
    {
        proof { use_type_invariant(&*self); }
        self.dragging = true;
    }

    /// The drag ends.
    pub fn end_drag(&mut self)
        ensures
            final(self)@ == old(self)@.with_dragging(false),
    {
        proof { use_type_invariant(&*self); }
        self.dragging = false;
    }

    /// The cursor moved: the image follows it, and the window is redrawn,
    /// exactly while a drag is under way.
    pub fn cursor_moved(&self) -> (redraw: bool)
        ensures
            redraw == self@.dragging,
    {
        self.dragging
    }

    /// What the frame does, given what acquiring the surface texture gave.
    /// A validation error cannot come back, as no error scope is pushed.
    pub fn render_step(&self, status: SurfaceStatus) -> (r: FrameStep)
        requires
            status != SurfaceStatus::Validation,
        ensures
            r == frame_step(status, self@.image),
    {
        match status {
            SurfaceStatus::Success => {
                let draw = match self.image {
                    Some(_) => Some(DrawCall { vertex_count: QUAD_VERTEX_COUNT, instance_count: 1 }),
                    None => None,
                };
                FrameStep::Draw { draw }
            },
            SurfaceStatus::Suboptimal => FrameStep::Reconfigure,
            SurfaceStatus::Outdated => FrameStep::Reconfigure,
            SurfaceStatus::Lost => FrameStep::RecreateSurface,
            SurfaceStatus::Timeout => FrameStep::Skip,
            SurfaceStatus::Occluded => FrameStep::Skip,
            SurfaceStatus::Validation => FrameStep::Skip,
        }
    }
}

/// How an image is copied into a texture: one layer of `width` by `height`
/// texels, four bytes a texel, rows packed one after the other.
pub fn texture_upload(data: &LoadedImageData) -> (r: TextureUpload)
    requires
        4 * (data.width as int) <= u32::MAX,
    ensures
        r == upload_layout(data.width, data.height),
        r.bytes_per_row == 4 * data.width,
        data.covers_pixels() ==> (r.bytes_per_row as int) * (r.rows_per_image as int) <= data.rgba@.len(),
{
    let bytes_per_row = 4 * data.width;
    proof {
        assert((bytes_per_row as int) * (data.height as int) == 4 * (data.width as int) * (data.height as int))
            by (nonlinear_arith) requires bytes_per_row == 4 * data.width;
    }
    TextureUpload {
        width: data.width,
        height: data.height,
        depth_or_array_layers: 1,
        bytes_per_row,
        rows_per_image: data.height,
    }
}


/// A renderer starts within its limits.
pub proof fn lemma_initial_wf(width: u32, height: u32, max_texture_dim: u32, image: Option<Extent>)
    ensures
        RendererView::initial(width, height, max_texture_dim, image).wf(),
{
}

/// A resize keeps the surface within the texture limit, and non-empty where
/// the limit allows.
pub proof fn lemma_resize_keeps_wf(v: RendererView, width: u32, height: u32)
    requires
        v.wf(),
    ensures
        v.resized(width, height).wf(),
{
}

/// Resizing to the size just applied changes nothing.
pub proof fn lemma_resize_idempotent(v: RendererView, width: u32, height: u32)
    ensures
        v.resized(width, height).resized(width, height) == v.resized(width, height),
{
}

/// The surface follows the latest non-empty size the window reports: an
/// earlier resize leaves no trace.
pub proof fn lemma_latest_resize_wins(v: RendererView, w1: u32, h1: u32, w2: u32, h2: u32)
    requires
        w2 != 0,
        h2 != 0,
    ensures
        v.resized(w1, h1).resized(w2, h2) == v.resized(w2, h2),
{
}

/// A resize touches only the surface: the image shown, the drag and the
/// texture limit stay.
pub proof fn lemma_resize_keeps_rest(v: RendererView, width: u32, height: u32)
    ensures
        v.resized(width, height).image == v.image,
        v.resized(width, height).dragging == v.dragging,
        v.resized(width, height).max_texture_dim == v.max_texture_dim,
{
}

/// Within the limit, the surface takes exactly the size the window reports.
pub proof fn lemma_resize_within_limit_exact(v: RendererView, width: u32, height: u32)
    requires
        1 <= width <= v.max_texture_dim,
        1 <= height <= v.max_texture_dim,
    ensures
        v.resized(width, height).surface == (Extent { width, height }),
{
}

/// Starting a drag and ending it leaves the renderer as if no drag had
/// begun; ending a drag that never began changes nothing.
pub proof fn lemma_drag_round_trip(v: RendererView)
    ensures
        v.with_dragging(true).with_dragging(false) == v.with_dragging(false),
        !v.dragging ==> v.with_dragging(false) == v,
{
}

/// A frame draws only when the surface texture was acquired, and draws the
/// quad exactly when an image is shown.
pub proof fn lemma_frame_draws_only_on_success(status: SurfaceStatus, image: Option<Extent>)
    ensures
        frame_step(status, image) is Draw <==> status == SurfaceStatus::Success,
        status == SurfaceStatus::Success ==> (frame_step(status, image) == FrameStep::Draw {
            draw: if image is Some { Some(DrawCall { vertex_count: QUAD_VERTEX_COUNT, instance_count: 1 }) } else { None },
        }),
{
}

/// Showing an image and then resizing gives the image's base scale against
/// the new surface.
pub proof fn lemma_resize_rescales_shown_image(v: RendererView, image: Extent, width: u32, height: u32)
    requires
        width != 0,
        height != 0,
    ensures
        v.showing(image).resized(width, height).image == Some(image),
        v.showing(image).resized(width, height).surface == (Extent {
            width: clamp_to(width, v.max_texture_dim),
            height: clamp_to(height, v.max_texture_dim),
        }),
{
}

/// A new renderer's surface takes the window's size wherever it fits the
/// texture limit: each side as the window reports it.
pub proof fn lemma_initial_within_limit_exact(width: u32, height: u32, max_texture_dim: u32, image: Option<Extent>)
    requires
        1 <= width <= max_texture_dim,
        1 <= height <= max_texture_dim,
    ensures
        RendererView::initial(width, height, max_texture_dim, image).surface == (Extent { width, height }),
{
}

/// Each side of a new renderer's surface is the window's side, raised to one
/// pixel and lowered to the texture limit, whatever the other side is.
pub proof fn lemma_initial_side_bounds(width: u32, height: u32, max_texture_dim: u32, image: Option<Extent>)
    ensures
        ({
            let s = RendererView::initial(width, height, max_texture_dim, image).surface;
            &&& s.width <= max_texture_dim
            &&& s.height <= max_texture_dim
            &&& (s.width == width || s.width == max_texture_dim || (width == 0 && s.width == 1))
            &&& (s.height == height || s.height == max_texture_dim || (height == 0 && s.height == 1))
            &&& (width <= max_texture_dim ==> s.width >= width)
            &&& (height <= max_texture_dim ==> s.height >= height)
            &&& (width >= 1 ==> s.width <= width)
            &&& (height >= 1 ==> s.height <= height)
        }),
{
}

/// The two sides of a new renderer's surface are sized apart: changing the
/// window's height leaves the surface's width, and the other way round.
pub proof fn lemma_initial_sides_independent(
    w1: u32,
    h1: u32,
    w2: u32,
    h2: u32,
    max_texture_dim: u32,
    image: Option<Extent>,
)
    ensures
        w1 == w2 ==> RendererView::initial(w1, h1, max_texture_dim, image).surface.width
            == RendererView::initial(w2, h2, max_texture_dim, image).surface.width,
        h1 == h2 ==> RendererView::initial(w1, h1, max_texture_dim, image).surface.height
            == RendererView::initial(w2, h2, max_texture_dim, image).surface.height,
{
}

/// The two sides of a resized surface are sized apart: the width follows
/// the window's width alone and the height its height alone.
pub proof fn lemma_resize_sides_independent(v: RendererView, w1: u32, h1: u32, w2: u32, h2: u32)
    requires
        w1 != 0,
        h1 != 0,
        w2 != 0,
        h2 != 0,
    ensures
        w1 == w2 ==> v.resized(w1, h1).surface.width == v.resized(w2, h2).surface.width,
        h1 == h2 ==> v.resized(w1, h1).surface.height == v.resized(w2, h2).surface.height,
        v.resized(w1, h1).surface.width <= w1,
        v.resized(w1, h1).surface.height <= h1,
        v.resized(w1, h1).surface.width == w1 || v.resized(w1, h1).surface.width == v.max_texture_dim,
        v.resized(w1, h1).surface.height == h1 || v.resized(w1, h1).surface.height == v.max_texture_dim,
{
}

} // verus!
