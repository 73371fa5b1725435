use vstd::prelude::*;
use vstd::string::*;

use crate::fps::FPS;
use crate::label::{fixed2, push_fixed2};

verus! {

/// The two ways of rendering: on the GPU through OpenGL, or on the CPU into a
/// pixel buffer.
#[derive(Clone, Copy, Debug, PartialEq, Eq, Structural)]
pub enum Backend {
    OpenGL,
    Software,
}

/// The name under which a backend is shown.
pub open spec fn backend_name(b: Backend) -> Seq<char> {
    match b {
        Backend::OpenGL => seq!['O', 'p', 'e', 'n', 'G', 'L'],
        Backend::Software => seq!['S', 'o', 'f', 't', 'w', 'a', 'r', 'e'],
    }
}

/// The diagnostic label: `"<name> FPS: <rate with two decimals>"`.
pub open spec fn info_text(b: Backend, hundredths: nat) -> Seq<char> {
    backend_name(b) + seq![' ', 'F', 'P', 'S', ':', ' '] + fixed2(hundredths)
}

/// Whether startup tries the GPU backend first.
pub open spec fn tries_gpu_spec(force_software: bool) -> bool {
    !force_software
}

/// The backend that startup settles on, given whether software rendering was
/// forced and whether the GPU device came up (when it was tried).
pub open spec fn selected_backend(force_software: bool, gpu_created: bool) -> Backend {
    if tries_gpu_spec(force_software) && gpu_created {
        Backend::OpenGL
    } else {
        Backend::Software
    }
}

/// Whether startup tries to create a GPU device before anything else.
pub fn tries_gpu(force_software: bool) -> (r: bool)
    ensures
        r == tries_gpu_spec(force_software),
{
    !force_software
}

/// The backend in use for the rest of the process: the GPU one when it was
/// tried and came up, the software one otherwise.
pub fn select_backend(force_software: bool, gpu_created: bool) -> (r: Backend)
    ensures
        r == selected_backend(force_software, gpu_created),
{
    if tries_gpu(force_software) && gpu_created {
        Backend::OpenGL
    } else {
        Backend::Software
    }
}

/// Forcing software rendering yields the software backend whatever the GPU
/// could have done.
pub proof fn lemma_forced_software_never_gpu(gpu_created: bool)
    ensures
        !tries_gpu_spec(true),
        selected_backend(true, gpu_created) == Backend::Software,
{
}

/// The surface size after a request to recreate the surface for a window of
/// `px_w` by `px_h` pixels, where `created` tells whether a new one came up.
pub open spec fn resized_surface(cur: SurfaceSize, px_w: i32, px_h: i32, created: bool) -> SurfaceSize {
    if created && drawable(px_w, px_h) {
        SurfaceSize { width: px_w, height: px_h }
    } else {
        cur
    }
}

/// Pixel size of a drawing surface.
#[derive(Clone, Copy, Debug, PartialEq, Eq, Structural)]
pub struct SurfaceSize {
    pub width: i32,
    pub height: i32,
}

/// What became of a request to recreate the drawing surface.
#[derive(Clone, Copy, Debug, PartialEq, Eq, Structural)]
pub enum ResizeOutcome {
    /// A new surface at the window's pixel size took the old one's place.
    Replaced,
    /// No new surface could be had; the old one stays in use.
    Kept,
}

/// Whether a surface can be made at this pixel size.
pub open spec fn drawable(px_w: i32, px_h: i32) -> bool {
    px_w > 0 && px_h > 0
}

/// The state that both backends keep beside their window and surface: which
/// backend they are, their frame counter and the size of their current
/// surface.
pub struct DeviceState {
    pub backend: Backend,
    pub counter: FPS,
    pub surface: SurfaceSize,
}

impl DeviceState {
    /// The state of a device whose first surface was made at `px_w` by
    /// `px_h` pixels, with its counter started at clock reading `now`.
    pub fn new(backend: Backend, now: u64, px_w: i32, px_h: i32) -> (r: DeviceState)
        ensures
            r.backend == backend,
            r.counter == (FPS { start: now, count: 0, frames: 0, span: 0 }),
            r.surface == (SurfaceSize { width: px_w, height: px_h }),
    {
        DeviceState {
            backend,
            counter: FPS::new(now),
            surface: SurfaceSize { width: px_w, height: px_h },
        }
    }

    /// Counts one frame at clock reading `now`.
    pub fn update(&mut self, now: u64)
        ensures
            final(self).counter == old(self).counter.next(now),
            final(self).backend == old(self).backend,
            final(self).surface == old(self).surface,
    {
        self.counter.update(now);
    }

    /// The current rate, in hundredths of a frame per second.
    pub fn fps(&self) -> (r: u128)
        ensures
            r == self.counter.centi_fps(),
    {
        self.counter.fps()
    }

    /// The backend's name and its current rate with two decimals.
    pub fn info(&self) -> (r: String)
        ensures
            r@ == info_text(self.backend, self.counter.centi_fps()),
    {
        let mut s = String::new();
        match self.backend {
            Backend::OpenGL => {
                proof { reveal_strlit("OpenGL"); }
                s.append("OpenGL");
            },
            Backend::Software => {
                proof { reveal_strlit("Software"); }
                s.append("Software");
            },
        }
        proof { reveal_strlit(" FPS: "); }
        s.append(" FPS: ");
        push_fixed2(&mut s, self.fps());
        assert(s@ =~= info_text(self.backend, self.counter.centi_fps()));
        s
    }

    /// Records a request to recreate the surface for a window now `px_w` by
    /// `px_h` pixels, where `created` tells whether a new surface came up.
    /// The new surface replaces the old one only when it came up at a
    /// drawable size; otherwise the old one stays, at its old size.
    pub fn resize(&mut self, px_w: i32, px_h: i32, created: bool) -> (r: ResizeOutcome)
        ensures
            r == (if created && drawable(px_w, px_h) {
                ResizeOutcome::Replaced
            } else {
                ResizeOutcome::Kept
            }),
            final(self).surface == resized_surface(old(self).surface, px_w, px_h, created),
            final(self).backend == old(self).backend,
            final(self).counter == old(self).counter,
    {
        if created && px_w > 0 && px_h > 0 {
            self.surface = SurfaceSize { width: px_w, height: px_h };
            ResizeOutcome::Replaced
        } else {
            ResizeOutcome::Kept
        }
    }
}

/// After a resize at a drawable size whose surface came up, the surface has
/// the window's pixel size at the moment of the call; one that did not come
/// up leaves the old surface, at its old size.
pub proof fn lemma_resize_matches_window(cur: SurfaceSize, px_w: i32, px_h: i32, created: bool)
    ensures
        created && px_w > 0 && px_h > 0 ==> resized_surface(cur, px_w, px_h, created)
            == (SurfaceSize { width: px_w, height: px_h }),
        !created ==> resized_surface(cur, px_w, px_h, created) == cur,
{
}

} // verus!
