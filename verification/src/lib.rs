use vstd::prelude::*;

pub mod app_state;
pub mod bot;
pub mod coord;
pub mod engine;
pub mod game;
pub mod game_state;
pub mod matching;
pub mod message;
pub mod misc;
pub mod trial;

pub use coord::AbsoluteColumn;
pub use coord::AbsoluteCoord;
pub use coord::AbsoluteRow;
pub use coord::Color;
pub use coord::Profession;

pub use trial::Ciurl;
pub use trial::CiurlPair;
pub use trial::SystemTrialSource;
pub use trial::TrialSource;
pub use trial::WhoGoesFirst;
