/// Continue horizontally instead of on the next line
pub mod same_line;
/// Return to the left edge
pub mod reset_offset;
/// Set a offset yourself
pub mod custom_offset;
/// A decorational divider
pub mod separator;

pub use same_line::SameLine;
pub use reset_offset::ResetOffset;
pub use custom_offset::CustomOffset;
pub use separator::Separator;
