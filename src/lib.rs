//! Card compositing for desktop wallpapers.
//!
//! A background image is decoded into a premultiplied RGBA canvas and darkened
//! by a fixed overlay (`canvas`); a stack of task and memo cards is laid out
//! along one edge of the canvas and described as shapes to rasterize
//! (`layout`); the finished canvas is encoded as PNG (`canvas`).
pub mod model;
pub mod layout;
pub mod canvas;
pub mod image_path;

pub use model::{CardType, CardPosition, WallpaperCard, RenderOptions, Task, Rgba};
pub use layout::{CardDraw, Pin, PathOp, calculate_card_height, render_cards, rounded_rect_path, pin_color_of};
pub use canvas::{PixelCanvas, CanvasError, build_canvas, canvas_from_rgba};
pub use image_path::{is_valid_image, is_image_extension};
