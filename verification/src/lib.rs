//! Verified core of the wayle desktop services.
pub mod text;
pub mod desktop_entry;
pub mod types;
pub mod hints;
pub mod model;
pub mod freedesktop;
pub mod portal;
pub mod slot_map;
pub mod wire_registry;
pub mod dispatch;
pub mod incoming;
pub mod fdo_server;
pub mod gvariant;
pub mod gtk_backend;
pub mod portal_backend;
pub mod notification;
pub mod history;
pub mod pipeline;
pub mod systray;
pub mod triad;
pub mod niri;
pub mod image_cache;
pub mod persistence;
pub mod service_builder;
pub mod gpu_poll;
