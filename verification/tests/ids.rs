use jimaku::tmdb::get_tmdb_id;
use jimaku::tmdb::Id;
use jimaku::tmdb::InvalidId;

#[test]
fn tmdb_url_tv() {
    assert_eq!(
        get_tmdb_id("https://www.themoviedb.org/tv/95479"),
        Some(Id::Tv { id: 95479 })
    );
}

#[test]
fn tmdb_url_movie_with_slug() {
    assert_eq!(
        get_tmdb_id("https://www.themoviedb.org/movie/129-spirited-away"),
        Some(Id::Movie { id: 129 })
    );
}

#[test]
fn tmdb_url_without_www_and_with_path() {
    assert_eq!(
        get_tmdb_id("https://themoviedb.org/tv/95479/season/2"),
        Some(Id::Tv { id: 95479 })
    );
}

#[test]
fn tmdb_url_embedded_in_text() {
    assert_eq!(
        get_tmdb_id("see https://themoviedb.org/movie/42 for details"),
        Some(Id::Movie { id: 42 })
    );
}

#[test]
fn tmdb_url_rejects_other_hosts_and_kinds() {
    assert_eq!(get_tmdb_id("https://example.org/tv/1"), None);
    assert_eq!(get_tmdb_id("https://www.themoviedb.org/person/1"), None);
    assert_eq!(get_tmdb_id("tv/123"), None);
    assert_eq!(get_tmdb_id("https://www.themoviedb.org/tv/"), None);
    assert_eq!(get_tmdb_id("https://www.themoviedb.org/tv/x1"), None);
}

#[test]
fn tmdb_url_overflowing_id_is_rejected() {
    assert_eq!(get_tmdb_id("https://www.themoviedb.org/tv/99999999999"), None);
}

#[test]
fn parse_text_forms() {
    assert_eq!(Id::parse("tv:123"), Ok(Id::Tv { id: 123 }));
    assert_eq!(Id::parse("movie:0"), Ok(Id::Movie { id: 0 }));
    assert_eq!(Id::parse("tv:+7"), Ok(Id::Tv { id: 7 }));
}

#[test]
fn parse_text_errors() {
    assert_eq!(Id::parse("tv123"), Err(InvalidId));
    assert_eq!(Id::parse("tv:"), Err(InvalidId));
    assert_eq!(Id::parse("movie:abc"), Err(InvalidId));
    assert_eq!(Id::parse(":5"), Err(InvalidId));
    assert_eq!(Id::parse("film:2"), Err(InvalidId));
    assert_eq!(Id::parse("tv:4294967296"), Err(InvalidId));
}

#[test]
fn parse_through_from_str() {
    assert_eq!("tv:5".parse::<Id>(), Ok(Id::Tv { id: 5 }));
    assert_eq!("what".parse::<Id>(), Err(InvalidId));
}

#[test]
fn text_round_trip() {
    let id = Id::Movie { id: 889 };
    assert_eq!(id.to_text(), "movie:889");
    assert_eq!(Id::parse(&id.to_text()), Ok(id));
    let id = Id::Tv { id: 95479 };
    assert_eq!(id.to_text(), "tv:95479");
    assert_eq!(Id::parse(&id.to_text()), Ok(id));
}

#[test]
fn url_strings() {
    assert_eq!(
        Id::Tv { id: 95479 }.url(),
        "https://www.themoviedb.org/tv/95479"
    );
    assert_eq!(
        Id::Movie { id: 129 }.url(),
        "https://www.themoviedb.org/movie/129"
    );
    assert_eq!(
        Id::Tv { id: 95479 }.api_url(),
        "https://api.themoviedb.org/3/tv/95479"
    );
    assert_eq!(
        Id::Movie { id: 129 }.api_url(),
        "https://api.themoviedb.org/3/movie/129"
    );
}

#[test]
fn url_then_parse_back() {
    let id = Id::Tv { id: 31 };
    assert_eq!(get_tmdb_id(&id.url()), Some(id));
    let id = Id::Movie { id: 4294967295 };
    assert_eq!(get_tmdb_id(&id.url()), Some(id));
}

#[test]
fn kind_queries() {
    assert!(Id::Movie { id: 1 }.is_movie());
    assert!(!Id::Tv { id: 1 }.is_movie());
    assert_eq!(Id::default(), Id::Tv { id: 0 });
}

#[test]
fn invalid_id_message() {
    assert_eq!(InvalidId.message(), "invalid tmdb ID provided");
}
