//! Retrieval of tagged media from imageboard sites: the post model, the
//! layered tag blacklist, the decisions of paginated extraction, resumable
//! runs, the download plan and the cached files.
mod auth;
mod blacklist;
mod codec;
mod download;
mod error;
mod extractor;
mod imageboards;
mod json;
mod post;
mod rating;
mod sites;
mod tags;
mod text;

pub use crate::auth::{ImageboardConfig, UserData};
pub use crate::blacklist::{is_animated, shares_tag, BlacklistCategories, BlacklistFilter, GlobalBlacklist};
pub use crate::codec::{
    decode_config, decode_post, encode_config, encode_post, pack_config, pack_marker, unpack_config, unpack_marker,
    CacheFault, CachedKind, COMPRESSION_LEVEL,
};
pub use crate::download::{
    after_check, after_response, after_store, archive_comment, archive_file_name, check_digest, check_existing,
    entry_name, file_name, is_client_error, md5_hex, run_directory, tag_query, ArchivePlan, FileCheck, Outcome, Queue,
    RunCounters, TaskAction, ARCHIVE_EXTENSION, MANIFEST_NAME,
};
pub use crate::error::{ExtractorError, QueueError};
pub use crate::extractor::{
    check_preflight, has_preflight, validate_tag_count, DanbooruExtractor, Extraction, GelbooruExtractor, MoebooruExtractor,
    PageStep, PAGE_CAP,
};
pub use crate::imageboards::{BarTemplates, ImageBoards, APP_VERSION};
pub use crate::json::{Json, JsonField};
pub use crate::post::{keep_newer, Post, PostQueue};
pub use crate::rating::{same_text, Rating};
pub use crate::sites::{map_item, map_page, ItemForm};
pub use crate::text::{extension_from_url, split_on_spaces, split_tags, to_decimal, to_hex};
