//! Verified frame, input-routing and resource policy for a bounded
//! simulation presentation layer built on Sim;Engine.

pub mod cache;
pub mod capture;
pub mod crab;
pub mod desktop;
pub mod draw_plan;
pub mod font;
pub mod frame_work;
pub mod identity;
pub mod image;
pub mod input;
pub mod input_buffer;
pub mod limits;
pub mod pointer_button;
pub mod publication;
pub mod redraw;
pub mod screen;
pub mod slot;
mod storage;
pub mod text;
pub mod text_cache;
pub mod texture;
pub mod three_d;
pub mod world;
pub mod timing;
