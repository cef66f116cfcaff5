//! ZIM repositories: the known public sources, the entries they list,
//! and a client with a cache, text search, and category and language
//! filters.

use vstd::prelude::*;
use crate::clock::now_epoch_seconds;
use crate::strutil::{
    clone_opt_string, clone_vec_string, lower_of, spec_contains_sub, str_contains, str_eq,
    to_lowercase,
};

verus! {

/// ZIM content categories.
#[derive(Debug, Clone, Copy, PartialEq, Eq, Hash, Structural)]
pub enum ZimCategory {
    Wikipedia,
    Wiktionary,
    Wikiquote,
    Wikibooks,
    Wikiversity,
    Wikivoyage,
    Wikisource,
    Wikinews,
    Wikispecies,
    StackExchange,
    TedTalks,
    Gutenberg,
    Other,
}

impl ZimCategory {
    /// The category's display name.
    pub fn name(&self) -> (r: &'static str)
        ensures
            *self is Wikipedia ==> r@ == "Wikipedia"@,
            *self is Wiktionary ==> r@ == "Wiktionary"@,
            *self is Wikiquote ==> r@ == "Wikiquote"@,
            *self is Wikibooks ==> r@ == "Wikibooks"@,
            *self is Wikiversity ==> r@ == "Wikiversity"@,
            *self is Wikivoyage ==> r@ == "Wikivoyage"@,
            *self is Wikisource ==> r@ == "Wikisource"@,
            *self is Wikinews ==> r@ == "Wikinews"@,
            *self is Wikispecies ==> r@ == "Wikispecies"@,
            *self is StackExchange ==> r@ == "Stack Exchange"@,
            *self is TedTalks ==> r@ == "TED Talks"@,
            *self is Gutenberg ==> r@ == "Project Gutenberg"@,
            *self is Other ==> r@ == "Other"@,
    {
        match self {
            ZimCategory::Wikipedia => "Wikipedia",
            ZimCategory::Wiktionary => "Wiktionary",
            ZimCategory::Wikiquote => "Wikiquote",
            ZimCategory::Wikibooks => "Wikibooks",
            ZimCategory::Wikiversity => "Wikiversity",
            ZimCategory::Wikivoyage => "Wikivoyage",
            ZimCategory::Wikisource => "Wikisource",
            ZimCategory::Wikinews => "Wikinews",
            ZimCategory::Wikispecies => "Wikispecies",
            ZimCategory::StackExchange => "Stack Exchange",
            ZimCategory::TedTalks => "TED Talks",
            ZimCategory::Gutenberg => "Project Gutenberg",
            ZimCategory::Other => "Other",
        }
    }
}

/// One downloadable ZIM file as listed by a repository.
///
/// Timestamps are whole seconds since the Unix epoch.
#[derive(Debug)]
pub struct ZimEntry {
    /// Unique identifier.
    pub id: String,
    /// Display name.
    pub name: String,
    /// Full title or description.
    pub title: String,
    /// Language code (for example "en" or "fr").
    pub language: String,
    /// Content category.
    pub category: ZimCategory,
    /// File size in bytes.
    pub size: u64,
    /// Download URL.
    pub url: String,
    /// Mirror URLs.
    pub mirrors: Vec<String>,
    /// Creation date.
    pub date: Option<i64>,
    /// SHA256 checksum.
    pub sha256: Option<String>,
    /// Number of articles.
    pub article_count: Option<u64>,
    /// Number of media files.
    pub media_count: Option<u64>,
    /// Repository id.
    pub repository: String,
    /// Tags.
    pub tags: Vec<String>,
    /// Flavor (mini, nopic, maxi, and the like).
    pub flavor: Option<String>,
}

/// Two entries carry the same data, vector fields compared by contents.
pub open spec fn entry_eq(a: ZimEntry, b: ZimEntry) -> bool {
    &&& a.id == b.id
    &&& a.name == b.name
    &&& a.title == b.title
    &&& a.language == b.language
    &&& a.category == b.category
    &&& a.size == b.size
    &&& a.url == b.url
    &&& a.mirrors@ == b.mirrors@
    &&& a.date == b.date
    &&& a.sha256 == b.sha256
    &&& a.article_count == b.article_count
    &&& a.media_count == b.media_count
    &&& a.repository == b.repository
    &&& a.tags@ == b.tags@
    &&& a.flavor == b.flavor
}

impl Clone for ZimEntry {
    fn clone(&self) -> (res: Self)
        ensures
            entry_eq(res, *self),
    {
        ZimEntry {
            id: self.id.clone(),
            name: self.name.clone(),
            title: self.title.clone(),
            language: self.language.clone(),
            category: self.category,
            size: self.size,
            url: self.url.clone(),
            mirrors: clone_vec_string(&self.mirrors),
            date: self.date,
            sha256: clone_opt_string(&self.sha256),
            article_count: self.article_count,
            media_count: self.media_count,
            repository: self.repository.clone(),
            tags: clone_vec_string(&self.tags),
            flavor: clone_opt_string(&self.flavor),
        }
    }
}

/// A public ZIM file repository.
#[derive(Debug)]
pub struct Repository {
    pub id: String,
    pub name: String,
    pub description: String,
    pub base_url: String,
    pub library_url: Option<String>,
    pub icon: String,
}

impl Clone for Repository {
    fn clone(&self) -> (res: Self)
        ensures
            res == *self,
    {
        Repository {
            id: self.id.clone(),
            name: self.name.clone(),
            description: self.description.clone(),
            base_url: self.base_url.clone(),
            library_url: clone_opt_string(&self.library_url),
            icon: self.icon.clone(),
        }
    }
}

/// Repository description handed to a frontend.
#[derive(Debug)]
pub struct RepositoryInfo {
    pub id: String,
    pub name: String,
    pub description: String,
    pub icon: String,
}

/// The known public ZIM repositories, in their fixed order.
pub fn repositories() -> (r: Vec<Repository>)
    ensures
        r@.len() == 5,
        r@[0].id@ == "kiwix"@,
        r@[0].name@ == "Kiwix Library"@,
        r@[0].base_url@ == "https://download.kiwix.org/zim/"@,
        r@[0].library_url matches Some(u) && u@
            == "https://library.kiwix.org/catalog/v2/entries"@,
        r@[1].id@ == "kiwix-other"@,
        r@[1].name@ == "Kiwix Other Content"@,
        r@[1].base_url@ == "https://download.kiwix.org/zim/other/"@,
        r@[1].library_url is None,
        r@[2].id@ == "wikipedia"@,
        r@[2].name@ == "Wikipedia Archives"@,
        r@[2].base_url@ == "https://download.kiwix.org/zim/wikipedia/"@,
        r@[2].library_url is None,
        r@[3].id@ == "wikimedia"@,
        r@[3].name@ == "Wikimedia Projects"@,
        r@[3].base_url@ == "https://download.kiwix.org/zim/"@,
        r@[3].library_url is None,
        r@[4].id@ == "archive"@,
        r@[4].name@ == "Internet Archive"@,
        r@[4].base_url@ == "https://archive.org/download/"@,
        r@[4].library_url is None,
{
    let mut r: Vec<Repository> = Vec::new();
    r.push(
        Repository {
            id: String::from_str("kiwix"),
            name: String::from_str("Kiwix Library"),
            description: String::from_str(
                "Official Kiwix ZIM library with Wikipedia, Wikimedia, and other content",
            ),
            base_url: String::from_str("https://download.kiwix.org/zim/"),
            library_url: Option::Some(
                String::from_str("https://library.kiwix.org/catalog/v2/entries"),
            ),
            icon: String::from_str("📚"),
        },
    );
    r.push(
        Repository {
            id: String::from_str("kiwix-other"),
            name: String::from_str("Kiwix Other Content"),
            description: String::from_str(
                "Stack Exchange, TED Talks, and other curated content",
            ),
            base_url: String::from_str("https://download.kiwix.org/zim/other/"),
            library_url: Option::None,
            icon: String::from_str("📦"),
        },
    );
    r.push(
        Repository {
            id: String::from_str("wikipedia"),
            name: String::from_str("Wikipedia Archives"),
            description: String::from_str("Complete Wikipedia dumps by language"),
            base_url: String::from_str("https://download.kiwix.org/zim/wikipedia/"),
            library_url: Option::None,
            icon: String::from_str("🌐"),
        },
    );
    r.push(
        Repository {
            id: String::from_str("wikimedia"),
            name: String::from_str("Wikimedia Projects"),
            description: String::from_str(
                "Wiktionary, Wikiquote, Wikibooks, and other Wikimedia projects",
            ),
            base_url: String::from_str("https://download.kiwix.org/zim/"),
            library_url: Option::None,
            icon: String::from_str("📖"),
        },
    );
    r.push(
        Repository {
            id: String::from_str("archive"),
            name: String::from_str("Internet Archive"),
            description: String::from_str("ZIM files hosted on Internet Archive"),
            base_url: String::from_str("https://archive.org/download/"),
            library_url: Option::None,
            icon: String::from_str("🏛️"),
        },
    );
    r
}

/// The repositories in the form handed to a frontend.
pub fn get_repositories() -> (r: Vec<RepositoryInfo>)
    ensures
        r@.len() == 5,
        r@[0].id@ == "kiwix"@,
        r@[1].id@ == "kiwix-other"@,
        r@[2].id@ == "wikipedia"@,
        r@[3].id@ == "wikimedia"@,
        r@[4].id@ == "archive"@,
{
    let repos = repositories();
    let mut r: Vec<RepositoryInfo> = Vec::new();
    let mut i: usize = 0;
    while i < repos.len()
        invariant
            i <= repos.len(),
            r@.len() == i,
            forall|j: int|
                0 <= j < i ==> (#[trigger] r@[j]).id@ == repos@[j].id@ && r@[j].name@
                    == repos@[j].name@ && r@[j].description@ == repos@[j].description@
                    && r@[j].icon@ == repos@[j].icon@,
        decreases repos.len() - i,
    {
        r.push(
            RepositoryInfo {
                id: repos[i].id.clone(),
                name: repos[i].name.clone(),
                description: repos[i].description.clone(),
                icon: repos[i].icon.clone(),
            },
        );
        i = i + 1;
    }
    r
}

} // verus!

use vstd::prelude::*;

verus! {

/// A catalog operation failed.
#[derive(Debug)]
pub enum RepoError {
    /// The named repository id is not known.
    RepositoryNotFound(String),
}

impl RepoError {
    /// A human-readable description of the error.
    pub fn message(&self) -> (r: String)
        ensures
            forall|s: String|
                *self == RepoError::RepositoryNotFound(s) ==> r@ == "Repository not found: "@
                    + s@,
    {
        match self {
            RepoError::RepositoryNotFound(id) => {
                let r = String::from_str("Repository not found: ").concat(id.as_str());
                r
            },
        }
    }
}

/// The id names one of the known repositories.
pub open spec fn spec_known_repo(id: Seq<char>) -> bool {
    ||| id == "kiwix"@
    ||| id == "kiwix-other"@
    ||| id == "wikipedia"@
    ||| id == "wikimedia"@
    ||| id == "archive"@
}

/// The entry carries the given catalog data, is attributed to `repo`,
/// and is dated `now`.
pub open spec fn sample_entry(
    e: ZimEntry,
    repo: Seq<char>,
    now: i64,
    id: Seq<char>,
    cat: ZimCategory,
    size: u64,
    lang: Seq<char>,
    url: Seq<char>,
) -> bool {
    &&& e.id@ == id
    &&& e.category == cat
    &&& e.size == size
    &&& e.language@ == lang
    &&& e.url@ == url
    &&& e.repository@ == repo
    &&& e.date == Option::Some(now)
    &&& e.mirrors@.len() == 0
}

/// The nine demonstration entries, attributed to `repo` and dated `now`.
pub open spec fn is_sample_list(s: Seq<ZimEntry>, repo: Seq<char>, now: i64) -> bool {
    &&& s.len() == 9
    &&& sample_entry(
        s[0],
        repo,
        now,
        "wikipedia_en_all_maxi"@,
        ZimCategory::Wikipedia,
        95_000_000_000,
        "en"@,
        "https://download.kiwix.org/zim/wikipedia/wikipedia_en_all_maxi_2024-01.zim"@,
    )
    &&& sample_entry(
        s[1],
        repo,
        now,
        "wikipedia_en_all_nopic"@,
        ZimCategory::Wikipedia,
        12_000_000_000,
        "en"@,
        "https://download.kiwix.org/zim/wikipedia/wikipedia_en_all_nopic_2024-01.zim"@,
    )
    &&& sample_entry(
        s[2],
        repo,
        now,
        "wikipedia_en_top_mini"@,
        ZimCategory::Wikipedia,
        2_000_000_000,
        "en"@,
        "https://download.kiwix.org/zim/wikipedia/wikipedia_en_top_mini_2024-01.zim"@,
    )
    &&& sample_entry(
        s[3],
        repo,
        now,
        "wikipedia_fr_all_maxi"@,
        ZimCategory::Wikipedia,
        38_000_000_000,
        "fr"@,
        "https://download.kiwix.org/zim/wikipedia/wikipedia_fr_all_maxi_2024-01.zim"@,
    )
    &&& sample_entry(
        s[4],
        repo,
        now,
        "wikipedia_de_all_maxi"@,
        ZimCategory::Wikipedia,
        42_000_000_000,
        "de"@,
        "https://download.kiwix.org/zim/wikipedia/wikipedia_de_all_maxi_2024-01.zim"@,
    )
    &&& sample_entry(
        s[5],
        repo,
        now,
        "wiktionary_en_all"@,
        ZimCategory::Wiktionary,
        5_500_000_000,
        "en"@,
        "https://download.kiwix.org/zim/wiktionary/wiktionary_en_all_2024-01.zim"@,
    )
    &&& sample_entry(
        s[6],
        repo,
        now,
        "stackexchange_all"@,
        ZimCategory::StackExchange,
        85_000_000_000,
        "en"@,
        "https://download.kiwix.org/zim/other/stackexchange_all_2024-01.zim"@,
    )
    &&& sample_entry(
        s[7],
        repo,
        now,
        "ted_talks_en"@,
        ZimCategory::TedTalks,
        25_000_000_000,
        "en"@,
        "https://download.kiwix.org/zim/other/ted_en_2024-01.zim"@,
    )
    &&& sample_entry(
        s[8],
        repo,
        now,
        "gutenberg_en_all"@,
        ZimCategory::Gutenberg,
        3_000_000_000,
        "en"@,
        "https://download.kiwix.org/zim/other/gutenberg_en_all_2024-01.zim"@,
    )
}

/// The entry's name, title, language, or one of its tags contains the
/// (already lowercase) query, compared case-insensitively.
pub open spec fn entry_matches(e: ZimEntry, ql: Seq<char>) -> bool {
    ||| spec_contains_sub(lower_of(e.name@), ql)
    ||| spec_contains_sub(lower_of(e.title@), ql)
    ||| spec_contains_sub(lower_of(e.language@), ql)
    ||| exists|j: int|
        0 <= j < e.tags@.len() && spec_contains_sub(lower_of((#[trigger] e.tags@[j])@), ql)
}

/// The entries that match the lowercase query, in their original order.
pub open spec fn search_filter(entries: Seq<ZimEntry>, ql: Seq<char>) -> Seq<ZimEntry>
    decreases entries.len(),
{
    if entries.len() == 0 {
        Seq::empty()
    } else {
        let rest = search_filter(entries.drop_last(), ql);
        if entry_matches(entries.last(), ql) {
            rest.push(entries.last())
        } else {
            rest
        }
    }
}

/// The entries of the given category, in their original order.
pub open spec fn category_filter(entries: Seq<ZimEntry>, cat: ZimCategory) -> Seq<ZimEntry>
    decreases entries.len(),
{
    if entries.len() == 0 {
        Seq::empty()
    } else {
        let rest = category_filter(entries.drop_last(), cat);
        if entries.last().category == cat {
            rest.push(entries.last())
        } else {
            rest
        }
    }
}

/// The entries in the given language, in their original order.
pub open spec fn language_filter(entries: Seq<ZimEntry>, lang: Seq<char>) -> Seq<ZimEntry>
    decreases entries.len(),
{
    if entries.len() == 0 {
        Seq::empty()
    } else {
        let rest = language_filter(entries.drop_last(), lang);
        if entries.last().language@ == lang {
            rest.push(entries.last())
        } else {
            rest
        }
    }
}

/// Element-wise copy of an entry list.
fn clone_entries(v: &Vec<ZimEntry>) -> (r: Vec<ZimEntry>)
    ensures
        r@.len() == v@.len(),
        forall|i: int| 0 <= i < r@.len() ==> entry_eq(#[trigger] r@[i], v@[i]),
{
    let mut r: Vec<ZimEntry> = Vec::new();
    let mut i: usize = 0;
    while i < v.len()
        invariant
            i <= v@.len(),
            r@.len() == i,
            forall|j: int| 0 <= j < i ==> entry_eq(#[trigger] r@[j], v@[j]),
        decreases v@.len() - i,
    {
        r.push(v[i].clone());
        i = i + 1;
    }
    r
}

/// One of the matching tags contains the needle, case-insensitively.
fn any_tag_contains(tags: &Vec<String>, needle: &str) -> (b: bool)
    ensures
        b == exists|j: int|
            0 <= j < tags@.len() && spec_contains_sub(lower_of((#[trigger] tags@[j])@), needle@),
{
    let mut i: usize = 0;
    while i < tags.len()
        invariant
            i <= tags@.len(),
            forall|j: int|
                0 <= j < i ==> !spec_contains_sub(lower_of((#[trigger] tags@[j])@), needle@),
        decreases tags@.len() - i,
    {
        let tl = to_lowercase(tags[i].as_str());
        if str_contains(tl.as_str(), needle) {
            return true;
        }
        i = i + 1;
    }
    false
}

/// The entry's name, title, language, or one of its tags contains the
/// (already lowercase) needle, case-insensitively.
fn entry_matches_exec(e: &ZimEntry, needle: &str) -> (b: bool)
    ensures
        b == entry_matches(*e, needle@),
{
    let name_l = to_lowercase(e.name.as_str());
    if str_contains(name_l.as_str(), needle) {
        return true;
    }
    let title_l = to_lowercase(e.title.as_str());
    if str_contains(title_l.as_str(), needle) {
        return true;
    }
    let lang_l = to_lowercase(e.language.as_str());
    if str_contains(lang_l.as_str(), needle) {
        return true;
    }
    any_tag_contains(&e.tags, needle)
}

/// Client for repository listings: a cache of fetched lists, free-text
/// search, and category and language filters.
pub struct RepositoryClient {
    cache: Vec<(String, Vec<ZimEntry>)>,
}

impl RepositoryClient {
    /// The cached lists, in insertion order.
    pub closed spec fn cache_view(self) -> Seq<(String, Vec<ZimEntry>)> {
        self.cache@
    }

    /// A list is cached under the id.
    pub open spec fn cache_has(self, id: Seq<char>) -> bool {
        exists|i: int|
            0 <= i < self.cache_view().len() && (#[trigger] self.cache_view()[i]).0@ == id
    }

    /// No id is cached twice.
    pub open spec fn wf(self) -> bool {
        forall|i: int, j: int|
            0 <= i < j < self.cache_view().len() ==> (#[trigger] self.cache_view()[i]).0@ != (
            #[trigger] self.cache_view()[j]).0@
    }

    /// A client with an empty cache.
    pub fn new() -> (r: RepositoryClient)
        ensures
            r.wf(),
            r.cache_view().len() == 0,
    {
        RepositoryClient { cache: Vec::new() }
    }

    /// The cache slot holding the id, if any.
    fn find_cache(&self, repo_id: &str) -> (r: Option<usize>)
        ensures
            match r {
                Option::Some(i) => i < self.cache_view().len() && self.cache_view()[i as int].0@
                    == repo_id@,
                Option::None => !self.cache_has(repo_id@),
            },
    {
        let mut i: usize = 0;
        while i < self.cache.len()
            invariant
                i <= self.cache@.len(),
                forall|j: int| 0 <= j < i ==> (#[trigger] self.cache@[j]).0@ != repo_id@,
            decreases self.cache@.len() - i,
        {
            if str_eq(self.cache[i].0.as_str(), repo_id) {
                return Option::Some(i);
            }
            i = i + 1;
        }
        Option::None
    }

    /// The list of entries for the repository: from the cache when
    /// present, else the demonstration catalog, which is then cached.
    /// Unknown ids are refused.
    pub fn fetch_zim_list(&mut self, repo_id: &str) -> (r: Result<Vec<ZimEntry>, RepoError>)
        requires
            old(self).wf(),
        ensures
            final(self).wf(),
            r is Ok <==> (old(self).cache_has(repo_id@) || spec_known_repo(repo_id@)),
            r is Err ==> final(self).cache_view() == old(self).cache_view() && (forall|s: String|
                r == Result::<Vec<ZimEntry>, RepoError>::Err(RepoError::RepositoryNotFound(s))
                    ==> s@ == repo_id@),
            old(self).cache_has(repo_id@) ==> final(self).cache_view() == old(self).cache_view()
                && (forall|i: int|
                0 <= i < old(self).cache_view().len() && (#[trigger] old(
                    self,
                ).cache_view()[i]).0@ == repo_id@ ==> (r matches Ok(v) && v@.len() == old(
                    self,
                ).cache_view()[i].1@.len() && (forall|j: int|
                    0 <= j < v@.len() ==> entry_eq(
                        #[trigger] v@[j],
                        old(self).cache_view()[i].1@[j],
                    )))),
            !old(self).cache_has(repo_id@) && spec_known_repo(repo_id@) ==> ({
                let lst = final(self).cache_view().last().1@;
                &&& final(self).cache_view().len() == old(self).cache_view().len() + 1
                &&& final(self).cache_view().drop_last() == old(self).cache_view()
                &&& final(self).cache_view().last().0@ == repo_id@
                &&& lst[0].date is Some
                &&& is_sample_list(lst, repo_id@, lst[0].date->0)
                &&& (forall|v: Vec<ZimEntry>|
                    r == Result::<Vec<ZimEntry>, RepoError>::Ok(v) ==> is_sample_list(
                        v@,
                        repo_id@,
                        lst[0].date->0,
                    ))
            }),
    {
        match self.find_cache(repo_id) {
            Option::Some(i) => {
                let cached = clone_entries(&self.cache[i].1);
                proof {
                    assert forall|k: int|
                        0 <= k < self.cache@.len() && (#[trigger] self.cache@[k]).0@ == repo_id@
                        implies k == i as int by {
                        if k != i {
                            assert(self.cache@[k].0@ != self.cache@[i as int].0@);
                        }
                    }
                }
                Result::Ok(cached)
            },
            Option::None => {
                if !known_repo(repo_id) {
                    return Result::Err(RepoError::RepositoryNotFound(String::from_str(repo_id)));
                }
                let now = now_epoch_seconds();
                let entries = self.get_sample_entries(repo_id, now);
                let copy = clone_entries(&entries);
                let ghost cv = copy@;
                let ghost pre = self.cache@;
                self.cache.push((String::from_str(repo_id), copy));
                proof {
                    assert(self.cache@.drop_last() =~= pre);
                    assert(self.cache@.last().1@ == cv);
                    assert(is_sample_list(cv, repo_id@, now));
                    assert forall|p: int, q: int|
                        0 <= p < q < self.cache@.len() implies (#[trigger] self.cache@[p]).0@ != (
                    #[trigger] self.cache@[q]).0@ by {
                        if q == pre.len() {
                            assert(!(0 <= p < pre.len() && pre[p].0@ == repo_id@));
                            assert(self.cache@[p] == pre[p]);
                        } else {
                            assert(self.cache@[p] == pre[p]);
                            assert(self.cache@[q] == pre[q]);
                        }
                    }
                }
                Result::Ok(entries)
            },
        }
    }

    /// The demonstration catalog, attributed to `repo_id` and dated `now`.
    fn get_sample_entries(&self, repo_id: &str, now: i64) -> (r: Vec<ZimEntry>)
        ensures
            is_sample_list(r@, repo_id@, now),
    {
        let mut r: Vec<ZimEntry> = Vec::new();
        r.push(mk_sample(
            "wikipedia_en_all_maxi",
            "Wikipedia (English) - Complete",
            "English Wikipedia with all articles and images",
            "en",
            ZimCategory::Wikipedia,
            95_000_000_000,
            "https://download.kiwix.org/zim/wikipedia/wikipedia_en_all_maxi_2024-01.zim",
            "abc123...",
            6_700_000,
            15_000_000,
            repo_id,
            "wikipedia",
            "english",
            "complete",
            Option::Some("maxi"),
            now,
        ));
        r.push(mk_sample(
            "wikipedia_en_all_nopic",
            "Wikipedia (English) - No Pictures",
            "English Wikipedia without images",
            "en",
            ZimCategory::Wikipedia,
            12_000_000_000,
            "https://download.kiwix.org/zim/wikipedia/wikipedia_en_all_nopic_2024-01.zim",
            "def456...",
            6_700_000,
            0,
            repo_id,
            "wikipedia",
            "english",
            "nopic",
            Option::Some("nopic"),
            now,
        ));
        r.push(mk_sample(
            "wikipedia_en_top_mini",
            "Wikipedia (English) - Top 100k Articles",
            "Most popular 100,000 English Wikipedia articles",
            "en",
            ZimCategory::Wikipedia,
            2_000_000_000,
            "https://download.kiwix.org/zim/wikipedia/wikipedia_en_top_mini_2024-01.zim",
            "ghi789...",
            100_000,
            50_000,
            repo_id,
            "wikipedia",
            "english",
            "mini",
            Option::Some("mini"),
            now,
        ));
        r.push(mk_sample(
            "wikipedia_fr_all_maxi",
            "Wikipedia (French) - Complete",
            "French Wikipedia with all articles and images",
            "fr",
            ZimCategory::Wikipedia,
            38_000_000_000,
            "https://download.kiwix.org/zim/wikipedia/wikipedia_fr_all_maxi_2024-01.zim",
            "jkl012...",
            2_500_000,
            8_000_000,
            repo_id,
            "wikipedia",
            "french",
            "complete",
            Option::Some("maxi"),
            now,
        ));
        r.push(mk_sample(
            "wikipedia_de_all_maxi",
            "Wikipedia (German) - Complete",
            "German Wikipedia with all articles and images",
            "de",
            ZimCategory::Wikipedia,
            42_000_000_000,
            "https://download.kiwix.org/zim/wikipedia/wikipedia_de_all_maxi_2024-01.zim",
            "mno345...",
            2_800_000,
            9_000_000,
            repo_id,
            "wikipedia",
            "german",
            "complete",
            Option::Some("maxi"),
            now,
        ));
        r.push(mk_sample(
            "wiktionary_en_all",
            "Wiktionary (English)",
            "English Wiktionary - Complete dictionary",
            "en",
            ZimCategory::Wiktionary,
            5_500_000_000,
            "https://download.kiwix.org/zim/wiktionary/wiktionary_en_all_2024-01.zim",
            "pqr678...",
            8_000_000,
            100_000,
            repo_id,
            "wiktionary",
            "english",
            "dictionary",
            Option::None,
            now,
        ));
        r.push(mk_sample(
            "stackexchange_all",
            "Stack Exchange - All Sites",
            "Complete Stack Exchange network archive",
            "en",
            ZimCategory::StackExchange,
            85_000_000_000,
            "https://download.kiwix.org/zim/other/stackexchange_all_2024-01.zim",
            "stu901...",
            50_000_000,
            1_000_000,
            repo_id,
            "stackexchange",
            "qa",
            "programming",
            Option::None,
            now,
        ));
        r.push(mk_sample(
            "ted_talks_en",
            "TED Talks (English)",
            "TED Talks with English subtitles",
            "en",
            ZimCategory::TedTalks,
            25_000_000_000,
            "https://download.kiwix.org/zim/other/ted_en_2024-01.zim",
            "vwx234...",
            5_000,
            5_000,
            repo_id,
            "ted",
            "video",
            "educational",
            Option::None,
            now,
        ));
        r.push(mk_sample(
            "gutenberg_en_all",
            "Project Gutenberg (English)",
            "Free eBooks from Project Gutenberg",
            "en",
            ZimCategory::Gutenberg,
            3_000_000_000,
            "https://download.kiwix.org/zim/other/gutenberg_en_all_2024-01.zim",
            "yza567...",
            70_000,
            0,
            repo_id,
            "gutenberg",
            "books",
            "ebooks",
            Option::None,
            now,
        ));
        r
    }

    /// What a catalog response parses to; the demonstration catalog
    /// stands in for a full OPDS parser.
    pub fn parse_opds_response(&self, _json: &str, repo_id: &str) -> (r: Vec<ZimEntry>)
        ensures
            exists|now: i64| #[trigger] is_sample_list(r@, repo_id@, now),
    {
        let now = now_epoch_seconds();
        let r = self.get_sample_entries(repo_id, now);
        proof {
            assert(is_sample_list(r@, repo_id@, now));
        }
        r
    }

    /// The entries whose name, title, language or tags contain the
    /// query, compared case-insensitively, in their original order.
    pub fn search(&self, query: &str, entries: &Vec<ZimEntry>) -> (r: Vec<ZimEntry>)
        ensures
            ({
                let f = search_filter(entries@, lower_of(query@));
                r@.len() == f.len() && (forall|i: int|
                    0 <= i < r@.len() ==> entry_eq(#[trigger] r@[i], f[i]))
            }),
    {
        let ql = to_lowercase(query);
        let mut r: Vec<ZimEntry> = Vec::new();
        let mut i: usize = 0;
        while i < entries.len()
            invariant
                i <= entries@.len(),
                ql@ == lower_of(query@),
                ({
                    let f = search_filter(entries@.take(i as int), ql@);
                    r@.len() == f.len() && (forall|k: int|
                        0 <= k < r@.len() ==> entry_eq(#[trigger] r@[k], f[k]))
                }),
            decreases entries@.len() - i,
        {
            let m = entry_matches_exec(&entries[i], ql.as_str());
            if m {
                r.push(entries[i].clone());
            }
            i = i + 1;
            proof {
                let t1 = entries@.take(i as int);
                assert(t1.drop_last() =~= entries@.take(i as int - 1));
                assert(t1.last() == entries@[i as int - 1]);
            }
        }
        proof {
            assert(entries@.take(entries@.len() as int) =~= entries@);
        }
        r
    }

    /// The entries of the given category, in their original order.
    pub fn filter_by_category(&self, category: &ZimCategory, entries: &Vec<ZimEntry>) -> (r: Vec<
        ZimEntry,
    >)
        ensures
            ({
                let f = category_filter(entries@, *category);
                r@.len() == f.len() && (forall|i: int|
                    0 <= i < r@.len() ==> entry_eq(#[trigger] r@[i], f[i]))
            }),
    {
        let mut r: Vec<ZimEntry> = Vec::new();
        let mut i: usize = 0;
        while i < entries.len()
            invariant
                i <= entries@.len(),
                ({
                    let f = category_filter(entries@.take(i as int), *category);
                    r@.len() == f.len() && (forall|k: int|
                        0 <= k < r@.len() ==> entry_eq(#[trigger] r@[k], f[k]))
                }),
            decreases entries@.len() - i,
        {
            if entries[i].category == *category {
                r.push(entries[i].clone());
            }
            i = i + 1;
            proof {
                let t1 = entries@.take(i as int);
                assert(t1.drop_last() =~= entries@.take(i as int - 1));
                assert(t1.last() == entries@[i as int - 1]);
            }
        }
        proof {
            assert(entries@.take(entries@.len() as int) =~= entries@);
        }
        r
    }

    /// The entries in the given language, in their original order.
    pub fn filter_by_language(&self, language: &str, entries: &Vec<ZimEntry>) -> (r: Vec<
        ZimEntry,
    >)
        ensures
            ({
                let f = language_filter(entries@, language@);
                r@.len() == f.len() && (forall|i: int|
                    0 <= i < r@.len() ==> entry_eq(#[trigger] r@[i], f[i]))
            }),
    {
        let mut r: Vec<ZimEntry> = Vec::new();
        let mut i: usize = 0;
        while i < entries.len()
            invariant
                i <= entries@.len(),
                ({
                    let f = language_filter(entries@.take(i as int), language@);
                    r@.len() == f.len() && (forall|k: int|
                        0 <= k < r@.len() ==> entry_eq(#[trigger] r@[k], f[k]))
                }),
            decreases entries@.len() - i,
        {
            if str_eq(entries[i].language.as_str(), language) {
                r.push(entries[i].clone());
            }
            i = i + 1;
            proof {
                let t1 = entries@.take(i as int);
                assert(t1.drop_last() =~= entries@.take(i as int - 1));
                assert(t1.last() == entries@[i as int - 1]);
            }
        }
        proof {
            assert(entries@.take(entries@.len() as int) =~= entries@);
        }
        r
    }
}

/// The id names one of the known repositories.
fn known_repo(repo_id: &str) -> (b: bool)
    ensures
        b == spec_known_repo(repo_id@),
{
    str_eq(repo_id, "kiwix") || str_eq(repo_id, "kiwix-other") || str_eq(repo_id, "wikipedia")
        || str_eq(repo_id, "wikimedia") || str_eq(repo_id, "archive")
}

/// One demonstration entry, attributed to `repo_id` and dated `now`.
fn mk_sample(
    id: &str,
    name: &str,
    title: &str,
    language: &str,
    category: ZimCategory,
    size: u64,
    url: &str,
    sha256: &str,
    article_count: u64,
    media_count: u64,
    repo_id: &str,
    tag1: &str,
    tag2: &str,
    tag3: &str,
    flavor: Option<&str>,
    now: i64,
) -> (e: ZimEntry)
    ensures
        e.id@ == id@,
        e.name@ == name@,
        e.title@ == title@,
        e.language@ == language@,
        e.category == category,
        e.size == size,
        e.url@ == url@,
        e.repository@ == repo_id@,
        e.date == Option::Some(now),
        e.mirrors@.len() == 0,
        e.tags@.len() == 3,
        e.tags@[0]@ == tag1@,
        e.tags@[1]@ == tag2@,
        e.tags@[2]@ == tag3@,
{
    let mut tags: Vec<String> = Vec::new();
    tags.push(String::from_str(tag1));
    tags.push(String::from_str(tag2));
    tags.push(String::from_str(tag3));
    ZimEntry {
        id: String::from_str(id),
        name: String::from_str(name),
        title: String::from_str(title),
        language: String::from_str(language),
        category,
        size,
        url: String::from_str(url),
        mirrors: Vec::new(),
        date: Option::Some(now),
        sha256: Option::Some(String::from_str(sha256)),
        article_count: Option::Some(article_count),
        media_count: Option::Some(media_count),
        repository: String::from_str(repo_id),
        tags,
        flavor: match flavor {
            Option::Some(f) => Option::Some(String::from_str(f)),
            Option::None => Option::None,
        },
    }
}

} // verus!
