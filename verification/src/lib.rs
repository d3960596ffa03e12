//! The decisions of an image viewer window, as verified state machines.

pub mod action_laws;
pub mod actions;
pub mod active_tool;
pub mod aiming_laws;
pub mod animation;
pub mod annotation;
pub mod asking;
pub mod browsing_laws;
pub mod canvas_resize;
pub mod color;
pub mod compare;
pub mod comparing_laws;
pub mod description;
pub mod detail_laws;
pub mod directory;
pub mod document;
pub mod drawing_laws;
pub mod effect;
pub mod event_laws;
pub mod export;
pub mod file_state;
pub mod fullscreen_preview;
pub mod invariants;
pub mod key_input;
pub mod keyboard;
pub mod keys;
pub mod load;
pub mod load_laws;
pub mod loading_laws;
pub mod menu;
pub mod mesh;
pub mod mesh_laws;
pub mod navigation;
pub mod opening;
pub mod outside_laws;
pub mod pencil;
pub mod picture_laws;
pub mod pixels;
pub mod pointer;
pub mod preferences;
pub mod presentation;
pub mod preview_cache;
pub mod print;
pub mod region;
pub mod region_laws;
pub mod saving_laws;
pub mod scale;
pub mod scaling;
pub mod scaling_laws;
pub mod selection;
pub mod stroke_laws;
pub mod text;
pub mod tool;
pub mod tool_laws;
pub mod window;
pub mod wording_laws;
pub mod zoom;
pub mod zoom_laws;
