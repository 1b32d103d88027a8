//! What the graphics stage decides before it talks to the GPU: how an instance
//! is set up and how a window's swapchain is configured. The calls into the
//! graphics API themselves are made outside the engine core; they hand in what
//! the API reported as plain numbers and names and get the decision back.

pub mod instance_setup;
pub mod window_render_target_output;
