use zim_downloader::repository::{
    get_repositories, repositories, RepositoryClient, ZimCategory,
};

#[test]
fn known_repositories_listed_in_order() {
    let repos = repositories();
    let ids: Vec<&str> = repos.iter().map(|r| r.id.as_str()).collect();
    assert_eq!(
        ids,
        vec!["kiwix", "kiwix-other", "wikipedia", "wikimedia", "archive"]
    );
    assert!(repos[0].library_url.is_some());
    assert!(repos[1].library_url.is_none());
    assert_eq!(repos[0].base_url, "https://download.kiwix.org/zim/");
}

#[test]
fn repository_info_mirrors_repositories() {
    let infos = get_repositories();
    assert_eq!(infos.len(), 5);
    assert_eq!(infos[0].id, "kiwix");
    assert_eq!(infos[0].name, "Kiwix Library");
    assert_eq!(infos[4].id, "archive");
}

#[test]
fn fetch_zim_list_returns_nine_entries() {
    let mut client = RepositoryClient::new();
    let entries = client.fetch_zim_list("kiwix").unwrap();
    assert_eq!(entries.len(), 9);
    assert_eq!(entries[0].id, "wikipedia_en_all_maxi");
    assert_eq!(entries[0].size, 95_000_000_000);
    assert_eq!(entries[5].category, ZimCategory::Wiktionary);
    assert_eq!(entries[8].id, "gutenberg_en_all");
    assert!(entries.iter().all(|e| e.repository == "kiwix"));
    assert!(entries.iter().all(|e| e.date.is_some()));
}

#[test]
fn fetch_zim_list_caches_the_first_answer() {
    let mut client = RepositoryClient::new();
    let first = client.fetch_zim_list("wikipedia").unwrap();
    let second = client.fetch_zim_list("wikipedia").unwrap();
    assert_eq!(first.len(), second.len());
    for (a, b) in first.iter().zip(second.iter()) {
        assert_eq!(a.id, b.id);
        assert_eq!(a.date, b.date);
    }
}

#[test]
fn unknown_repository_is_refused() {
    let mut client = RepositoryClient::new();
    let err = client.fetch_zim_list("nope").unwrap_err();
    assert_eq!(err.message(), "Repository not found: nope");
}

#[test]
fn parse_opds_response_yields_the_catalog() {
    let client = RepositoryClient::new();
    let entries = client.parse_opds_response("{}", "kiwix");
    assert_eq!(entries.len(), 9);
    assert_eq!(entries[0].repository, "kiwix");
}

#[test]
fn search_is_case_insensitive_over_all_fields() {
    let mut client = RepositoryClient::new();
    let entries = client.fetch_zim_list("kiwix").unwrap();

    // Matches the French entry by name (and its tag).
    let french = client.search("FRENCH", &entries);
    assert_eq!(french.len(), 1);
    assert_eq!(french[0].id, "wikipedia_fr_all_maxi");

    // A substring is enough.
    let sub = client.search("rench", &entries);
    assert_eq!(sub.len(), 1);

    // Tag-only match: "qa" appears only among Stack Exchange's tags.
    let qa = client.search("qa", &entries);
    assert_eq!(qa.len(), 1);
    assert_eq!(qa[0].id, "stackexchange_all");

    // Name matches across several entries.
    let wiki = client.search("wikipedia", &entries);
    assert_eq!(wiki.len(), 5);

    // No match.
    assert!(client.search("klingon", &entries).is_empty());
}

#[test]
fn filters_select_by_category_and_language() {
    let mut client = RepositoryClient::new();
    let entries = client.fetch_zim_list("kiwix").unwrap();

    let dictionaries = client.filter_by_category(&ZimCategory::Wiktionary, &entries);
    assert_eq!(dictionaries.len(), 1);
    assert_eq!(dictionaries[0].id, "wiktionary_en_all");

    let german = client.filter_by_language("de", &entries);
    assert_eq!(german.len(), 1);
    assert_eq!(german[0].id, "wikipedia_de_all_maxi");

    let english = client.filter_by_language("en", &entries);
    assert_eq!(english.len(), 7);

    assert!(client
        .filter_by_category(&ZimCategory::Wikinews, &entries)
        .is_empty());
}

#[test]
fn category_names_render() {
    assert_eq!(ZimCategory::Wikipedia.name(), "Wikipedia");
    assert_eq!(ZimCategory::StackExchange.name(), "Stack Exchange");
    assert_eq!(ZimCategory::Gutenberg.name(), "Project Gutenberg");
    assert_eq!(ZimCategory::TedTalks.name(), "TED Talks");
}
