use vstd::prelude::*;

pub mod text;
pub mod knowledge;
pub mod dsl;
pub mod state;
pub mod pipeline;
pub mod strmap;
pub mod context;
pub mod clock;
pub mod script_types;
pub mod script_actions;
pub mod script_check;
pub mod script_run;
pub mod cdp;
pub mod engine;
pub mod video;
pub mod dom;
pub mod browser;
pub mod panels;
pub mod editor;
pub mod highlight;
pub mod studio;
pub mod templates;
pub mod workspace;
pub mod app_state;
pub mod events;
pub mod dataset;
pub mod dispatch;
pub mod config;
pub mod backend;
pub mod pipeline_editor;
pub mod translator;
pub mod sniffer;
pub mod logging;
