//! SolDag: a verified core for a blockchain ingestion pipeline.
//!
//! The library holds the decision logic of the pipeline — slot polling with
//! gap detection, catch-up backfill, bounded-retry fetching, transaction
//! decoding, and the store's query semantics — each function carrying a
//! contract that Verus checks. The surrounding process (RPC transport,
//! document store, HTTP server) lives outside the library and hands it
//! plain values.

mod api;
mod catchup;
mod fetcher;
mod node;
mod pipeline;
mod poll;
mod sink;
mod store;
mod supervisor;
mod time;
mod transaction;

pub use api::AccountQuery;
pub use api::DEFAULT_PAGE_SIZE;
pub use api::QueryError;
pub use api::QueryPlan;
pub use api::TransactionQuery;
pub use api::plan_transaction_query;
pub use catchup::backfill_heights;
pub use catchup::catch_up_forward;
pub use catchup::gap_heights;
pub use fetcher::CATCH_UP_FETCH_RETRIES;
pub use fetcher::FetchFailure;
pub use fetcher::LIVE_FETCH_RETRIES;
pub use fetcher::RetryState;
pub use fetcher::fetch_with_retries;
pub use node::ACCOUNT_DATA_SLICE_LENGTH;
pub use node::AccountEncoding;
pub use node::AccountError;
pub use node::AccountRequest;
pub use node::AccountState;
pub use node::BlockFetchConfig;
pub use node::Commitment;
pub use node::TxDetail;
pub use node::TxEncoding;
pub use node::block_fetch_config;
pub use node::pubkey_bytes_of;
pub use node::prepare_account_request;
pub use node::resolve_account_response;
pub use pipeline::PipelineTrace;
pub use pipeline::run_catch_ups;
pub use pipeline::run_store_heights;
pub use pipeline::run_ticks;
pub use poll::PollState;
pub use poll::gap_request;
pub use poll::is_gap;
pub use poll::lemma_cold_start_never_gaps;
pub use poll::lemma_gap_detection;
pub use sink::Block;
pub use sink::decode_block_entries;
pub use sink::process_job;
pub use sink::stamped;
pub use supervisor::RESTART_BUDGET;
pub use supervisor::ServiceTask;
pub use supervisor::Supervisor;
pub use store::Store;
pub use store::TxFilter;
pub use store::matches_filter;
pub use store::matching_records;
pub use store::next_offset;
pub use store::page_next_offset;
pub use store::record_matches;
pub use store::referenced_records;
pub use time::MAX_EPOCH_SECONDS;
pub use time::MIN_EPOCH_SECONDS;
pub use time::day_start_of;
pub use time::normalize_block_time;
pub use time::normalized_time;
pub use time::representable_seconds;
pub use transaction::AddressTableLookup;
pub use transaction::CompiledInstruction;
pub use transaction::DecodeError;
pub use transaction::EncodedTx;
pub use transaction::Message;
pub use transaction::MessageHeader;
pub use transaction::RawMessage;
pub use transaction::Transaction;
pub use transaction::TxEntry;
pub use transaction::TxMeta;
pub use transaction::TxPayload;
pub use transaction::decode_spec;
pub use transaction::decode_transaction;
