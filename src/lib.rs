//! State and rules of a rendering device that draws 2D frames into a window,
//! on the GPU or in a CPU pixel buffer: the frame-rate counter, the
//! diagnostic label, the choice of backend at startup, the size of the
//! drawing surface across resizes, and the cache of decoded images.
pub mod cache;
pub mod device;
pub mod fps;
pub mod label;
pub mod menu_bar;
