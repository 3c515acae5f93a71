//! The work store: one transaction per request, carried out whole or not at all.
pub mod admissions;
pub mod allowance;
pub mod attempts;
pub mod authority;
pub mod changes;
pub mod creations;
pub mod delegation;
pub mod deliveries;
pub mod dependencies;
pub mod dispatches;
pub mod effects;
pub mod evidence;
pub mod facts;
pub mod findings;
pub mod freshness;
pub mod growth;
pub mod history;
pub mod inputs;
pub mod interruptions;
pub mod lasting;
pub mod listing;
pub mod opening;
pub mod operations;
pub mod pagination;
pub mod pausing;
pub mod prompts;
pub mod reaching;
pub mod reaches;
pub mod readings;
pub mod receipts;
pub mod reconciliation;
pub mod reconciling;
pub mod records;
pub mod recovery;
pub mod redeliveries;
pub mod refusals;
pub mod releases;
pub mod reopening;
pub mod repeats;
pub mod requests;
pub mod results;
pub mod rows;
pub mod rules;
pub mod showings;
pub mod summaries;
pub mod tables;
pub mod task_list;
pub mod tasks;
pub mod transaction;
pub mod uploads;
