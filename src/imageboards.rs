//! The supported sites and their fixed attributes.
use vstd::prelude::*;
use vstd::string::StringExecFns;

verus! {

/// Version that the user agent announces.
pub const APP_VERSION: &'static str = "1.0.0";

/// Every supported imageboard.
#[derive(Debug, Copy, Clone, PartialEq, Eq, Structural, PartialOrd, Ord, Hash)]
pub enum ImageBoards {
    /// `https://danbooru.donmai.us`, or its safe variant.
    Danbooru,
    /// `https://e621.net`, or its safe variant `https://e926.net`.
    E621,
    /// `https://rule34.xxx`
    Rule34,
    /// `http://realbooru.com`
    Realbooru,
    /// `https://konachan.com`, or its safe variant.
    Konachan,
    /// `https://gelbooru.com`
    Gelbooru,
}

/// Progress bar templates of a site.
#[derive(Debug, Copy, Clone, PartialEq, Eq)]
pub struct BarTemplates {
    pub main: &'static str,
    pub download: &'static str,
}

pub const DEFAULT_MAIN_TEMPLATE: &'static str = "{spinner:.green.bold} {elapsed_precise:.bold} {wide_bar:.green/white.dim} {percent:.bold}  {pos:.green} (eta. {eta})";

pub const DEFAULT_DOWNLOAD_TEMPLATE: &'static str = "{spinner:.green.bold} {bar:40.green/white.dim} {percent:.bold} | {byte_progress:21.green} @ {bytes_per_sec:>13.green} (eta. {eta:<4})";

pub const E621_MAIN_TEMPLATE: &'static str = "{spinner:.yellow.bold} {elapsed_precise:.bold} {wide_bar:.blue/white.dim} {percent:.bold}  {pos:.yellow} (eta. {eta})";

pub const E621_DOWNLOAD_TEMPLATE: &'static str = "{spinner:.blue.bold} {bar:40.yellow/white.dim} {percent:.bold} | {byte_progress:21.blue} @ {bytes_per_sec:>13.yellow} (eta. {eta:<4.blue})";

pub const REALBOORU_MAIN_TEMPLATE: &'static str = "{spinner:.red.bold} {elapsed_precise:.bold} {wide_bar:.red/white.dim} {percent:.bold}  {pos:.bold} (eta. {eta})";

pub const REALBOORU_DOWNLOAD_TEMPLATE: &'static str = "{spinner:.red.bold} {bar:40.red/white.dim} {percent:.bold} | {byte_progress:21.bold.green} @ {bytes_per_sec:>13.red} (eta. {eta:<4})";

impl Default for BarTemplates {
    fn default() -> (r: BarTemplates)
        ensures
            r.main@ == DEFAULT_MAIN_TEMPLATE@,
            r.download@ == DEFAULT_DOWNLOAD_TEMPLATE@,
    {
        BarTemplates { main: DEFAULT_MAIN_TEMPLATE, download: DEFAULT_DOWNLOAD_TEMPLATE }
    }
}

impl ImageBoards {
    /// The lower-case name of the site, used in paths and cache file names.
    pub open spec fn name_spec(self) -> Seq<char> {
        match self {
            ImageBoards::Danbooru => "danbooru"@,
            ImageBoards::E621 => "e621"@,
            ImageBoards::Rule34 => "rule34"@,
            ImageBoards::Realbooru => "realbooru"@,
            ImageBoards::Konachan => "konachan"@,
            ImageBoards::Gelbooru => "gelbooru"@,
        }
    }

    pub open spec fn agent_suffix_spec(self) -> Seq<char> {
        match self {
            ImageBoards::Danbooru => " (by danbooru user FerrahWolfeh)"@,
            ImageBoards::E621 => " (by e621 user FerrahWolfeh)"@,
            _ => ""@,
        }
    }

    pub open spec fn post_url_spec(self) -> Seq<char> {
        match self {
            ImageBoards::Danbooru => "https://danbooru.donmai.us/posts.json"@,
            ImageBoards::E621 => "https://e621.net/posts.json"@,
            ImageBoards::Rule34 => "https://api.rule34.xxx/index.php?page=dapi&s=post&q=index&json=1"@,
            ImageBoards::Konachan => "https://konachan.com/post.json"@,
            ImageBoards::Realbooru => "http://realbooru.com/index.php?page=dapi&s=post&q=index&json=1"@,
            ImageBoards::Gelbooru => "http://gelbooru.com/index.php?page=dapi&s=post&q=index&json=1"@,
        }
    }

    pub open spec fn max_post_limit_spec(self) -> usize {
        match self {
            ImageBoards::Danbooru => 200,
            ImageBoards::E621 => 320,
            ImageBoards::Rule34 => 1000,
            ImageBoards::Realbooru => 1000,
            ImageBoards::Konachan => 100,
            ImageBoards::Gelbooru => 100,
        }
    }

    pub open spec fn has_native_blacklist_spec(self) -> bool {
        self is Danbooru || self is E621
    }

    /// The site's name in lower case.
    pub fn to_string(&self) -> (r: String)
        ensures
            r@ == self.name_spec(),
    {
        let s = match self {
            ImageBoards::Danbooru => "danbooru",
            ImageBoards::E621 => "e621",
            ImageBoards::Rule34 => "rule34",
            ImageBoards::Realbooru => "realbooru",
            ImageBoards::Konachan => "konachan",
            ImageBoards::Gelbooru => "gelbooru",
        };
        String::from_str(s)
    }

    /// The user agent sent to the site: the program's name and version, and
    /// for sites that ask for it, the account that maintains the program.
    pub fn user_agent(self) -> (r: String)
        ensures
            r@ == "Rust Imageboard Downloader/"@ + APP_VERSION@ + self.agent_suffix_spec(),
    {
        let variant = match self {
            ImageBoards::Danbooru => " (by danbooru user FerrahWolfeh)",
            ImageBoards::E621 => " (by e621 user FerrahWolfeh)",
            _ => "",
        };
        let ua = String::from_str("Rust Imageboard Downloader/");
        let ua = ua.concat(APP_VERSION);
        ua.concat(variant)
    }

    /// The endpoint that counts the posts of a query; only Danbooru has one.
    pub fn post_count_url(self) -> (r: Option<&'static str>)
        ensures
            self is Danbooru ==> r is Some && r->Some_0@ == "https://danbooru.donmai.us/counts/posts.json"@,
            !(self is Danbooru) ==> r is None,
    {
        match self {
            ImageBoards::Danbooru => Some("https://danbooru.donmai.us/counts/posts.json"),
            _ => None,
        }
    }

    /// The endpoint that lists the posts of a query.
    pub fn post_url(&self) -> (r: &'static str)
        ensures
            r@ == self.post_url_spec(),
    {
        match self {
            ImageBoards::Danbooru => "https://danbooru.donmai.us/posts.json",
            ImageBoards::E621 => "https://e621.net/posts.json",
            ImageBoards::Rule34 => "https://api.rule34.xxx/index.php?page=dapi&s=post&q=index&json=1",
            ImageBoards::Konachan => "https://konachan.com/post.json",
            ImageBoards::Realbooru => "http://realbooru.com/index.php?page=dapi&s=post&q=index&json=1",
            ImageBoards::Gelbooru => "http://gelbooru.com/index.php?page=dapi&s=post&q=index&json=1",
        }
    }

    /// Whether the site keeps a blacklist per user, and so supports authentication.
    pub fn has_native_blacklist(self) -> (r: bool)
        ensures
            r == self.has_native_blacklist_spec(),
    {
        matches!(self, ImageBoards::Danbooru | ImageBoards::E621)
    }

    /// The largest number of posts that one page of the site holds.
    pub fn max_post_limit(self) -> (r: usize)
        ensures
            r == self.max_post_limit_spec(),
    {
        match self {
            ImageBoards::Danbooru => 200,
            ImageBoards::E621 => 320,
            ImageBoards::Rule34 => 1000,
            ImageBoards::Realbooru => 1000,
            ImageBoards::Konachan => 100,
            ImageBoards::Gelbooru => 100,
        }
    }

    /// The progress bar templates themed for the site.
    pub fn progress_template(self) -> (r: BarTemplates)
        ensures
            self is E621 ==> r.main@ == E621_MAIN_TEMPLATE@ && r.download@ == E621_DOWNLOAD_TEMPLATE@,
            self is Realbooru ==> r.main@ == REALBOORU_MAIN_TEMPLATE@ && r.download@
                == REALBOORU_DOWNLOAD_TEMPLATE@,
            !(self is E621) && !(self is Realbooru) ==> r.main@ == DEFAULT_MAIN_TEMPLATE@
                && r.download@ == DEFAULT_DOWNLOAD_TEMPLATE@,
    {
        match self {
            ImageBoards::E621 => BarTemplates { main: E621_MAIN_TEMPLATE, download: E621_DOWNLOAD_TEMPLATE },
            ImageBoards::Realbooru => BarTemplates {
                main: REALBOORU_MAIN_TEMPLATE,
                download: REALBOORU_DOWNLOAD_TEMPLATE,
            },
            _ => BarTemplates::default(),
        }
    }

    /// The endpoint that checks a login and returns the user's profile; empty
    /// where the site has no authentication.
    pub fn auth_url(self) -> (r: &'static str)
        ensures
            self is Danbooru ==> r@ == "https://danbooru.donmai.us/profile.json"@,
            self is E621 ==> r@ == "https://e621.net/users/"@,
            !self.has_native_blacklist_spec() ==> r@ == ""@,
    {
        match self {
            ImageBoards::Danbooru => "https://danbooru.donmai.us/profile.json",
            ImageBoards::E621 => "https://e621.net/users/",
            _ => "",
        }
    }
}

} // verus!
