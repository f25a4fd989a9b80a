//! Verified core of the Lovelock companion: parsing of the game-side bridge
//! records, the decisions that turn gameplay events into toy commands, and
//! the validation rules of the local Lovense API.

mod text;
pub mod lovense;
pub mod provider;
pub mod triggers;
pub mod bridge;
pub mod lines;
pub mod settings;
pub mod dispatch;
pub mod detection;
pub mod version;
pub mod listener;
pub mod profiles;
pub mod saving;
pub mod status;
