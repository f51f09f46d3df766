//! Animated glyphs whose frame rate follows a speed in `[0, 1]`.
pub mod animated_emoji;
pub mod animated_emoji_builder;
pub mod running_cat;

pub use animated_emoji::AnimatedEmoji;
pub use animated_emoji_builder::AnimatedEmojiBuilder;
pub use running_cat::RunningCat;
