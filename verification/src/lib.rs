//! A verified core for an exam-result lookup service: a read-only record
//! store, a call dispatcher with unary lookup, and a paced stream-producer
//! state machine with disconnect handling.

mod delivery;
mod dispatch;
mod numbers;
mod record;
mod store;
mod stream;

pub use delivery::attempted_count;
pub use delivery::delivered_count;
pub use delivery::is_interleaving;
pub use delivery::lane;
pub use delivery::lemma_concurrent_streams_independent;
pub use delivery::lemma_counts_bounded;
pub use delivery::lemma_disconnect_bounds_production;
pub use delivery::lemma_full_consumption;
pub use delivery::lemma_interleaving_keeps_lanes;
pub use delivery::run_delivery;
pub use dispatch::combine_key;
pub use dispatch::combined_key;
pub use dispatch::lemma_message_mentions_key;
pub use dispatch::not_found_text;
pub use dispatch::seeded_map;
pub use dispatch::ExamServiceImpl;
pub use dispatch::LookupError;
pub use numbers::dec_rep;
pub use numbers::decimal_string;
pub use numbers::digit_char;
pub use numbers::lemma_dec_rep_injective;
pub use numbers::lemma_dec_rep_len;
pub use record::RecordModel;
pub use record::ResultRecord;
pub use store::LookupKey;
pub use store::RecordStore;
pub use stream::label_prefix;
pub use stream::lemma_ordinal_marker_injective;
pub use stream::lemma_stream_label_injective;
pub use stream::lemma_stream_ordinals_increase;
pub use stream::ordinal_marker;
pub use stream::stream_element;
pub use stream::stream_label;
pub use stream::stream_seq;
pub use stream::SessionModel;
pub use stream::StreamSession;
pub use stream::DEFAULT_PACING_UNITS;
pub use stream::DEFAULT_STREAM_LEN;
