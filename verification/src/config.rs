//! Fixed configuration of the application: texture geometry, window
//! dimensions, and the names the application registers with the GPU and UI
//! layers.

use vstd::prelude::*;

verus! {

/// Width in pixels of the offscreen texture.
pub const TEX_WIDTH: usize = 256;

/// Height in pixels of the offscreen texture.
pub const TEX_HEIGHT: usize = 256;

/// Bytes per pixel of the texture's four-channel eight-bit format.
pub const BYTES_PER_PIXEL: usize = 4;

/// Initial window width and height in logical units.
pub const WINDOW_SIZE: usize = 700;

/// Minimum window width in logical units.
pub const WINDOW_MIN_WIDTH: usize = 300;

/// Minimum window height in logical units.
pub const WINDOW_MIN_HEIGHT: usize = 220;

/// The initial and minimum window dimensions, in logical units.
#[derive(Clone, Copy, PartialEq, Eq, Structural, Debug)]
pub struct WindowConfig {
    pub width: usize,
    pub height: usize,
    pub min_width: usize,
    pub min_height: usize,
}

/// The window the application opens: 700 by 700 logical units, at least
/// 300 by 220.
pub fn window_config() -> (c: WindowConfig)
    ensures
        c.width == WINDOW_SIZE,
        c.height == WINDOW_SIZE,
        c.min_width == WINDOW_MIN_WIDTH,
        c.min_height == WINDOW_MIN_HEIGHT,
{
    WindowConfig {
        width: WINDOW_SIZE,
        height: WINDOW_SIZE,
        min_width: WINDOW_MIN_WIDTH,
        min_height: WINDOW_MIN_HEIGHT,
    }
}

/// The title of the application window.
pub fn window_title() -> (t: &'static str)
    ensures
        t@ == "eframe template"@,
{
    "eframe template"
}

/// The name of the vertex entry point in the embedded shader source.
pub fn shader_vertex_entry() -> (s: &'static str)
    ensures
        s@ == "vertex_main"@,
{
    "vertex_main"
}

/// The name of the fragment entry point in the embedded shader source.
pub fn shader_fragment_entry() -> (s: &'static str)
    ensures
        s@ == "fragment_main"@,
{
    "fragment_main"
}

/// The debug name under which the per-frame CPU image is uploaded into the
/// UI framework's texture cache.
pub fn ui_texture_debug_name() -> (s: &'static str)
    ensures
        s@ == "metal texture"@,
{
    "metal texture"
}

/// The shape of the offscreen texture the renderer allocates at startup:
/// usable both as a shader-readable resource and as a render target.
#[derive(Clone, Copy, PartialEq, Eq, Structural, Debug)]
pub struct TextureDesc {
    pub width: usize,
    pub height: usize,
    pub shader_read: bool,
    pub render_target: bool,
}

/// The texture descriptor of the one texture the application allocates.
pub open spec fn spec_texture_desc() -> TextureDesc {
    TextureDesc { width: TEX_WIDTH, height: TEX_HEIGHT, shader_read: true, render_target: true }
}

/// Builds the descriptor of the fixed 256 by 256 offscreen texture.
pub fn offscreen_texture_desc() -> (d: TextureDesc)
    ensures
        d == spec_texture_desc(),
        d.width == TEX_WIDTH,
        d.height == TEX_HEIGHT,
        d.shader_read,
        d.render_target,
{
    TextureDesc { width: TEX_WIDTH, height: TEX_HEIGHT, shader_read: true, render_target: true }
}

} // verus!
