//! The decision logic of the Boru desktop chat client.
pub mod clock;
pub mod home;
pub mod home_cards;
pub mod id_map;
pub mod layout;
pub mod layout_overrides;
pub mod lengths;
pub mod link_preview;
pub mod matching;
pub mod mesh_status;
pub mod network_connection;
pub mod notifications;
pub mod page_meta;
pub mod palette;
pub mod phrase;
pub mod preview_cache;
pub mod preview_data;
pub mod preview_fetch;
pub mod preview_target;
pub mod share_dialog;
pub mod status_card;
pub mod text;
pub mod theme;
pub mod tunnel_labels;
pub mod tunnel_update;
pub mod tunnels;
pub mod typography;
pub mod url_match;
