pub mod agent;
pub mod agent_flows;
pub mod audio;
pub mod characters;
pub mod chat;
pub mod contract_history;
pub mod contracts;
pub mod diagnostics;
pub mod errors;
pub mod exec_audit;
pub mod import_export;
pub mod json_body;
pub mod kaleido;
pub mod macros;
pub mod plugins;
pub mod prompt_inject;
pub mod prompt_preview;
pub mod memory;
pub mod quick_replies;
pub mod repo_index;
pub mod request_id;
pub mod resource;
pub mod security;
pub mod sessions;
pub mod settings;
pub mod settings_update;
pub mod skills;
pub mod static_files;
pub mod tasks;
pub mod tokens;
pub mod tool_permissions;
pub mod user_scripts;
pub mod variables;
pub mod world_books;
