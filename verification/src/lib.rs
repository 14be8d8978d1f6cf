//! State and rules of a terminal chat client: what the screens show, what is
//! sent to a model, what is stored, and how the background jobs proceed.

pub mod answer_laws;
pub mod app;
pub mod backends;
pub mod chat;
pub mod chat_laws;
pub mod client;
pub mod client_laws;
pub mod clipboard;
pub mod commands;
pub mod compaction;
pub mod digest;
pub mod effects;
pub mod events;
pub mod file_laws;
pub mod files;
pub mod followup;
pub mod history;
pub mod images;
pub mod job_laws;
pub mod json;
pub mod keyed;
pub mod list_laws;
pub mod login;
pub mod memory;
pub mod memory_laws;
pub mod models;
pub mod modes;
pub mod naming;
pub mod ordering;
pub mod picks;
pub mod pipeline;
pub mod pipeline_laws;
pub mod prompt_laws;
pub mod prompts;
pub mod provider;
pub mod reply_laws;
pub mod research;
pub mod research_job;
pub mod research_laws;
pub mod research_start;
pub mod research_updates;
pub mod roundtable;
pub mod roundtable_laws;
pub mod searcher;
pub mod sending;
pub mod sessions;
pub mod settings;
pub mod settings_laws;
pub mod skills;
pub mod spaces;
pub mod stages;
pub mod startup;
pub mod state;
pub mod store;
pub mod stream;
pub mod swarm;
pub mod swarm_laws;
pub mod swarm_session;
pub mod text;
pub mod text_laws;
pub mod tools;
pub mod ui;
pub mod writes;
