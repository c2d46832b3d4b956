//! TMDB identifiers and the title-selection logic for TMDB records.
//!
//! An identifier is either a TV series or a movie together with its
//! numeric id.  Identifiers render as `tv:123` / `movie:123` strings and
//! as site or API URLs, parse back from both renderings, and a record's
//! titles are reduced to a romaji / english / native triple.

use vstd::prelude::*;

use crate::anilist::MediaTitle;
use crate::japanese::all_non_japanese;
use crate::japanese::no_japanese_chars;
use crate::text::all_digits;
use crate::text::chars_of;
use crate::text::check_match_at;
use crate::text::dec_chars;
use crate::text::digits_val;
use crate::text::find_substring;
use crate::text::has_substring;
use crate::text::is_digit;
use crate::text::matches_at;
use crate::text::parse_digits;
use crate::text::parse_u32_range;
use crate::text::push_chars;
use crate::text::spec_parse_digits;
use crate::text::spec_parse_u32;
use crate::text::str_eq;
use crate::text::u32_to_chars;

verus! {

/// A TMDB ID.
///
/// These are scoped depending on the series.
#[derive(Debug, Clone, Copy, PartialEq, Eq, Hash, Structural)]
pub enum Id {
    /// The type of the TMDB ID represents a TV series.
    Tv {
        /// The integer TMDB ID.
        id: u32,
    },
    /// The type of the TMDB ID represents a movie.
    Movie {
        /// The integer TMDB ID.
        id: u32,
    },
}

/// The error returned when a textual TMDB ID does not parse.
#[derive(Debug, Clone, Copy, PartialEq, Eq, PartialOrd, Ord, Structural)]
pub struct InvalidId;

impl InvalidId {
    /// The message shown for this error.
    pub fn message(&self) -> (r: &'static str)
        ensures
            r@ == "invalid tmdb ID provided"@,
    {
        "invalid tmdb ID provided"
    }
}

/// The characters of the public site URL for an identifier.
pub open spec fn spec_url(id: Id) -> Seq<char> {
    match id {
        Id::Tv { id } => "https://www.themoviedb.org/tv/"@ + dec_chars(id as int),
        Id::Movie { id } => "https://www.themoviedb.org/movie/"@ + dec_chars(id as int),
    }
}

/// The characters of the API URL for an identifier.
pub open spec fn spec_api_url(id: Id) -> Seq<char> {
    match id {
        Id::Tv { id } => "https://api.themoviedb.org/3/tv/"@ + dec_chars(id as int),
        Id::Movie { id } => "https://api.themoviedb.org/3/movie/"@ + dec_chars(id as int),
    }
}

/// The characters of the `tv:123` / `movie:123` rendering.
pub open spec fn spec_text(id: Id) -> Seq<char> {
    match id {
        Id::Tv { id } => "tv:"@ + dec_chars(id as int),
        Id::Movie { id } => "movie:"@ + dec_chars(id as int),
    }
}

/// The position of the first colon in the sequence, or its length when no
/// colon occurs.
pub open spec fn index_of_colon(s: Seq<char>) -> int
    decreases s.len(),
{
    if s.len() == 0 {
        0
    } else if s[0] == ':' {
        0
    } else {
        1 + index_of_colon(s.drop_first())
    }
}

/// What parsing a `tv:123` / `movie:123` rendering returns: the text up to
/// the first colon names the kind, the rest is the numeric id.
pub open spec fn spec_parse_id(s: Seq<char>) -> Option<Id> {
    let i = index_of_colon(s);
    if i >= s.len() {
        None
    } else if s.take(i) == "tv"@ {
        match spec_parse_u32(s.skip(i + 1)) {
            Some(n) => Some(Id::Tv { id: n }),
            None => None,
        }
    } else if s.take(i) == "movie"@ {
        match spec_parse_u32(s.skip(i + 1)) {
            Some(n) => Some(Id::Movie { id: n }),
            None => None,
        }
    } else {
        None
    }
}

proof fn lemma_index_of_colon(s: Seq<char>, i: int)
    requires
        0 <= i <= s.len(),
        forall|k: int| 0 <= k < i ==> s[k] != ':',
        i < s.len() ==> s[i] == ':',
        i == s.len() ==> forall|k: int| 0 <= k < s.len() ==> s[k] != ':',
    ensures
        index_of_colon(s) == i,
    decreases i,
{
    if s.len() == 0 {
    } else if i == 0 {
    } else {
        assert(s[0] != ':');
        let t = s.drop_first();
        assert(forall|k: int| 0 <= k < i - 1 ==> t[k] == s[k + 1] && t[k] != ':');
        lemma_index_of_colon(t, i - 1);
    }
}

impl Id {
    /// The public site URL for this identifier.
    pub fn url(&self) -> (r: String)
        ensures
            r@ == spec_url(*self),
    {
        let mut s = String::new();
        match self {
            Id::Tv { id } => {
                let p = chars_of("https://www.themoviedb.org/tv/");
                push_chars(&mut s, &p);
                let d = u32_to_chars(*id);
                push_chars(&mut s, &d);
            },
            Id::Movie { id } => {
                let p = chars_of("https://www.themoviedb.org/movie/");
                push_chars(&mut s, &p);
                let d = u32_to_chars(*id);
                push_chars(&mut s, &d);
            },
        }
        proof {
            assert(s@ =~= spec_url(*self));
        }
        s
    }

    /// The API URL for this identifier.
    pub fn api_url(&self) -> (r: String)
        ensures
            r@ == spec_api_url(*self),
    {
        let mut s = String::new();
        match self {
            Id::Tv { id } => {
                let p = chars_of("https://api.themoviedb.org/3/tv/");
                push_chars(&mut s, &p);
                let d = u32_to_chars(*id);
                push_chars(&mut s, &d);
            },
            Id::Movie { id } => {
                let p = chars_of("https://api.themoviedb.org/3/movie/");
                push_chars(&mut s, &p);
                let d = u32_to_chars(*id);
                push_chars(&mut s, &d);
            },
        }
        proof {
            assert(s@ =~= spec_api_url(*self));
        }
        s
    }

    /// The `tv:123` / `movie:123` rendering of this identifier.
    pub fn to_text(&self) -> (r: String)
        ensures
            r@ == spec_text(*self),
    {
        let mut s = String::new();
        match self {
            Id::Tv { id } => {
                let p = chars_of("tv:");
                push_chars(&mut s, &p);
                let d = u32_to_chars(*id);
                push_chars(&mut s, &d);
            },
            Id::Movie { id } => {
                let p = chars_of("movie:");
                push_chars(&mut s, &p);
                let d = u32_to_chars(*id);
                push_chars(&mut s, &d);
            },
        }
        proof {
            assert(s@ =~= spec_text(*self));
        }
        s
    }

    /// Parses a `tv:123` / `movie:123` rendering.
    pub fn parse(s: &str) -> (r: Result<Id, InvalidId>)
        ensures
            (match spec_parse_id(s@) {
                Some(id) => r == Ok::<Id, InvalidId>(id),
                None => r == Err::<Id, InvalidId>(InvalidId),
            }),
    {
        let v = chars_of(s);
        let n = v.len();
        let mut i: usize = 0;
        while i < n && v[i] != ':'
            invariant
                v@ == s@,
                n == v@.len(),
                i <= n,
                forall|k: int| 0 <= k < i ==> v@[k] != ':',
            decreases n - i,
        {
            i = i + 1;
        }
        proof {
            lemma_index_of_colon(s@, i as int);
        }
        if i == n {
            return Err(InvalidId);
        }
        let tv = chars_of("tv");
        let movie = chars_of("movie");
        let kind_tv = i == tv.len() && check_match_at(&v, &tv, 0);
        let kind_movie = !kind_tv && i == movie.len() && check_match_at(&v, &movie, 0);
        proof {
            if kind_tv {
                assert(s@.take(i as int) =~= s@.subrange(0, "tv"@.len() as int));
            } else {
                assert(s@.take(i as int) =~= s@.subrange(0, i as int));
                if i == tv@.len() {
                    assert(s@.take(i as int) != "tv"@);
                }
                if kind_movie {
                    assert(s@.take(i as int) =~= s@.subrange(0, "movie"@.len() as int));
                } else if i == movie@.len() {
                    assert(s@.take(i as int) != "movie"@);
                }
            }
        }
        if !kind_tv && !kind_movie {
            return Err(InvalidId);
        }
        proof {
            assert(s@.skip(i + 1) =~= v@.subrange(i + 1, n as int));
        }
        match parse_u32_range(&v, i + 1, n) {
            Some(num) => {
                if kind_tv {
                    Ok(Id::Tv { id: num })
                } else {
                    Ok(Id::Movie { id: num })
                }
            },
            None => Err(InvalidId),
        }
    }

    /// Returns `true` if the id is [`Movie`].
    ///
    /// [`Movie`]: Id::Movie
    #[must_use]
    pub fn is_movie(&self) -> (r: bool)
        ensures
            r == (self is Movie),
    {
        matches!(self, Id::Movie { .. })
    }
}

impl Default for Id {
    /// The default identifier: a TV series with id zero.
    fn default() -> (r: Self)
        ensures
            r == (Id::Tv { id: 0u32 }),
    {
        Id::Tv { id: 0 }
    }
}


proof fn lemma_dec_chars_value(n: int)
    requires
        0 <= n,
    ensures
        dec_chars(n).len() >= 1,
        all_digits(dec_chars(n)),
        digits_val(dec_chars(n)) == n,
    decreases n,
{
    if n < 10 {
        let s0 = dec_chars(n);
        assert(s0 =~= seq![crate::text::digit_char(n)]);
        assert(crate::text::digit_char(n) as u32 == 0x30 + n);
        assert(s0.drop_last() =~= Seq::<char>::empty());
        assert(digits_val(s0) == digits_val(s0.drop_last()) * 10 + crate::text::digit_val(
            s0.last(),
        ));
        assert(digits_val(Seq::<char>::empty()) == 0);
    } else {
        lemma_dec_chars_value(n / 10);
        let d = dec_chars(n);
        assert(d.drop_last() =~= dec_chars(n / 10));
        assert(crate::text::digit_char(n % 10) as u32 == 0x30 + n % 10);
        assert(digits_val(d) == digits_val(dec_chars(n / 10)) * 10 + (n % 10));
    }
}

/// Rendering an identifier as `tv:123` / `movie:123` and parsing the text
/// back yields the same identifier.
pub proof fn lemma_text_round_trip(id: Id)
    ensures
        spec_parse_id(spec_text(id)) == Some(id),
{
    reveal_strlit("tv:");
    reveal_strlit("tv");
    reveal_strlit("movie:");
    reveal_strlit("movie");
    match id {
        Id::Tv { id: n } => {
            let s = spec_text(Id::Tv { id: n });
            let d = dec_chars(n as int);
            lemma_dec_chars_value(n as int);
            assert(s == "tv:"@ + d);
            assert(s[0] != ':' && s[1] != ':' && s[2] == ':');
            lemma_index_of_colon(s, 2);
            assert(s.take(2) =~= "tv"@);
            assert(s.skip(3) =~= d);
            assert(is_digit(d[0]));
            assert(d[0] as u32 != '+' as u32);
            assert(spec_parse_u32(d) == spec_parse_digits(d));
            assert(spec_parse_digits(d) == Some(n));
        },
        Id::Movie { id: n } => {
            let s = spec_text(Id::Movie { id: n });
            let d = dec_chars(n as int);
            lemma_dec_chars_value(n as int);
            assert(s == "movie:"@ + d);
            assert(s[0] != ':' && s[1] != ':' && s[2] != ':' && s[3] != ':' && s[4] != ':' && s[5]
                == ':');
            lemma_index_of_colon(s, 5);
            assert(s.take(5).len() == 5 && ("tv"@).len() == 2);
            assert(s.take(5) != "tv"@);
            assert(s.take(5) =~= "movie"@);
            assert(s.skip(6) =~= d);
            assert(is_digit(d[0]));
            assert(d[0] as u32 != '+' as u32);
            assert(spec_parse_u32(d) == spec_parse_digits(d));
            assert(spec_parse_digits(d) == Some(n));
        },
    }
}


/// Rendering an identifier as its site URL and scanning the URL back
/// yields the same identifier.
pub proof fn lemma_url_round_trip(id: Id)
    ensures
        spec_get_tmdb_id(spec_url(id)) == Some(id),
{
    reveal_strlit("https://www.themoviedb.org/tv/");
    reveal_strlit("https://www.themoviedb.org/movie/");
    reveal_strlit("https://");
    reveal_strlit("www.");
    reveal_strlit("themoviedb.org/");
    reveal_strlit("tv/");
    reveal_strlit("movie/");
    match id {
        Id::Tv { id: n } => {
            let d = dec_chars(n as int);
            let s = spec_url(Id::Tv { id: n });
            lemma_dec_chars_value(n as int);
            assert(s.subrange(0, 8) =~= "https://"@);
            assert(s.subrange(8, 12) =~= "www."@);
            assert(s.subrange(12, 27) =~= "themoviedb.org/"@);
            assert(s.subrange(27, 30) =~= "tv/"@);
            assert(url_kind_pos(s, 0) == Some((false, 30int)));
            assert(s[30] == d[0]);
            assert(url_match_at(s, 0));
            assert(first_url_match(s, 0) == Some(0int));
            assert forall|k: int| 30 <= k < s.len() implies is_digit(s[k]) by {
                assert(s[k] == d[k - 30]);
            }
            lemma_digit_run_end(s, 30, s.len() as int);
            assert(s.subrange(30, s.len() as int) =~= d);
            assert(url_result_at(s, 0) == Some(Id::Tv { id: n }));
        },
        Id::Movie { id: n } => {
            let d = dec_chars(n as int);
            let s = spec_url(Id::Movie { id: n });
            lemma_dec_chars_value(n as int);
            assert(s.subrange(0, 8) =~= "https://"@);
            assert(s.subrange(8, 12) =~= "www."@);
            assert(s.subrange(12, 27) =~= "themoviedb.org/"@);
            assert(!matches_at(s, "tv/"@, 27)) by {
                assert(s.subrange(27, 30)[0] == s[27]);
            }
            assert(s.subrange(27, 33) =~= "movie/"@);
            assert(url_kind_pos(s, 0) == Some((true, 33int)));
            assert(s[33] == d[0]);
            assert(url_match_at(s, 0));
            assert(first_url_match(s, 0) == Some(0int));
            assert forall|k: int| 33 <= k < s.len() implies is_digit(s[k]) by {
                assert(s[k] == d[k - 33]);
            }
            lemma_digit_run_end(s, 33, s.len() as int);
            assert(s.subrange(33, s.len() as int) =~= d);
            assert(url_result_at(s, 0) == Some(Id::Movie { id: n }));
        },
    }
}

impl core::str::FromStr for Id {
    type Err = InvalidId;

    fn from_str(s: &str) -> Result<Self, InvalidId> {
        Id::parse(s)
    }
}

/// Where a TMDB site URL matches at position `i`: the kind of the entry
/// and the position right after `tv/` or `movie/`, where the numeric id
/// must begin.  The scheme, an optional `www.` label, and the host are
/// required verbatim.
pub open spec fn url_kind_pos(s: Seq<char>, i: int) -> Option<(bool, int)> {
    let scheme = "https://"@;
    let www = "www."@;
    let host = "themoviedb.org/"@;
    let tv = "tv/"@;
    let movie = "movie/"@;
    if !matches_at(s, scheme, i) {
        None
    } else {
        let j = if matches_at(s, www, i + scheme.len()) {
            i + scheme.len() + www.len()
        } else {
            i + scheme.len()
        };
        if !matches_at(s, host, j) {
            None
        } else if matches_at(s, tv, j + host.len()) {
            Some((false, j + host.len() + tv.len()))
        } else if matches_at(s, movie, j + host.len()) {
            Some((true, j + host.len() + movie.len()))
        } else {
            None
        }
    }
}

/// Whether a TMDB site URL with at least one id digit matches at `i`.
pub open spec fn url_match_at(s: Seq<char>, i: int) -> bool {
    match url_kind_pos(s, i) {
        Some((_kind, d)) => d < s.len() && is_digit(s[d]),
        None => false,
    }
}

/// The end of the run of digit characters that starts at `d`.
pub open spec fn digit_run_end(s: Seq<char>, d: int) -> int
    recommends
        0 <= d <= s.len(),
    decreases s.len() - d,
{
    if d < s.len() && is_digit(s[d]) {
        digit_run_end(s, d + 1)
    } else {
        d
    }
}

/// The identifier a URL match at `i` denotes: the kind read from the path,
/// the id from the full digit run, or nothing when the digits overflow.
pub open spec fn url_result_at(s: Seq<char>, i: int) -> Option<Id> {
    match url_kind_pos(s, i) {
        Some((kind_movie, d)) => if d < s.len() && is_digit(s[d]) {
            match spec_parse_digits(s.subrange(d, digit_run_end(s, d))) {
                Some(n) => Some(
                    if kind_movie {
                        Id::Movie { id: n }
                    } else {
                        Id::Tv { id: n }
                    },
                ),
                None => None,
            }
        } else {
            None
        },
        None => None,
    }
}

/// The first position at which a TMDB site URL matches, if any.
pub open spec fn first_url_match(s: Seq<char>, i: int) -> Option<int>
    recommends
        0 <= i,
    decreases s.len() - i,
{
    if i >= s.len() {
        None
    } else if url_match_at(s, i) {
        Some(i)
    } else {
        first_url_match(s, i + 1)
    }
}

/// What scanning a string for a TMDB site URL returns: the identifier
/// denoted at the first position where one matches.
pub open spec fn spec_get_tmdb_id(s: Seq<char>) -> Option<Id> {
    match first_url_match(s, 0) {
        Some(i) => url_result_at(s, i),
        None => None,
    }
}

/// Whether a TMDB site URL matches at position `i` of `v`, and where its
/// id digits begin.
fn url_kind_pos_at(
    v: &Vec<char>,
    scheme: &Vec<char>,
    www: &Vec<char>,
    host: &Vec<char>,
    tv: &Vec<char>,
    movie: &Vec<char>,
    i: usize,
) -> (r: Option<(bool, usize)>)
    requires
        scheme@ == "https://"@,
        www@ == "www."@,
        host@ == "themoviedb.org/"@,
        tv@ == "tv/"@,
        movie@ == "movie/"@,
        i <= v@.len(),
    ensures
        (match r {
            Some((kind_movie, d)) => url_kind_pos(v@, i as int) == Some((kind_movie, d as int))
                && i <= d <= v@.len(),
            None => url_kind_pos(v@, i as int) is None,
        }),
{
    let n = v.len();
    if n - i < scheme.len() || !check_match_at(v, scheme, i) {
        return None;
    }
    let after_scheme = i + scheme.len();
    let j = if n - after_scheme >= www.len() && check_match_at(v, www, after_scheme) {
        after_scheme + www.len()
    } else {
        after_scheme
    };
    if n - j < host.len() || !check_match_at(v, host, j) {
        return None;
    }
    let k = j + host.len();
    if n - k >= tv.len() && check_match_at(v, tv, k) {
        Some((false, k + tv.len()))
    } else if n - k >= movie.len() && check_match_at(v, movie, k) {
        Some((true, k + movie.len()))
    } else {
        None
    }
}

proof fn lemma_digit_run_end(s: Seq<char>, d: int, e: int)
    requires
        0 <= d <= e <= s.len(),
        forall|k: int| d <= k < e ==> is_digit(s[k]),
        e < s.len() ==> !is_digit(s[e]),
    ensures
        digit_run_end(s, d) == e,
    decreases e - d,
{
    if d < e {
        lemma_digit_run_end(s, d + 1, e);
    }
}

proof fn lemma_first_url_match_skip(s: Seq<char>, i: int)
    requires
        0 <= i <= s.len(),
        forall|k: int| 0 <= k < i ==> !url_match_at(s, k),
    ensures
        first_url_match(s, 0) == first_url_match(s, i),
    decreases i,
{
    if i > 0 {
        lemma_first_url_match_skip(s, i - 1);
        assert(first_url_match(s, i - 1) == first_url_match(s, i));
    }
}

/// Scans a string for a TMDB site URL and returns the identifier it
/// denotes: the kind from the `tv` or `movie` path segment, the id from
/// the digit run that follows it.
pub fn get_tmdb_id(url: &str) -> (r: Option<Id>)
    ensures
        r == spec_get_tmdb_id(url@),
{
    let v = chars_of(url);
    let n = v.len();
    let scheme = chars_of("https://");
    let www = chars_of("www.");
    let host = chars_of("themoviedb.org/");
    let tv = chars_of("tv/");
    let movie = chars_of("movie/");
    let mut i: usize = 0;
    while i < n
        invariant
            v@ == url@,
            n == v@.len(),
            i <= n,
            scheme@ == "https://"@,
            www@ == "www."@,
            host@ == "themoviedb.org/"@,
            tv@ == "tv/"@,
            movie@ == "movie/"@,
            forall|k: int| 0 <= k < i ==> !url_match_at(v@, k),
        decreases n - i,
    {
        match url_kind_pos_at(&v, &scheme, &www, &host, &tv, &movie, i) {
            Some((kind_movie, d)) => {
                let has_digit = d < n && {
                    let cu = v[d] as u32;
                    0x30 <= cu && cu <= 0x39
                };
                if has_digit {
                    // The URL matches here; take the whole digit run as the id.
                    proof {
                        assert(url_match_at(v@, i as int));
                        lemma_first_url_match_skip(v@, i as int);
                    }
                    let mut e: usize = d;
                    loop
                        invariant
                            n == v@.len(),
                            d <= e <= n,
                            forall|k: int| d <= k < e ==> is_digit(v@[k]),
                        ensures
                            e == n || !is_digit(v@[e as int]),
                        decreases n - e,
                    {
                        if e == n {
                            break;
                        }
                        let cu = v[e] as u32;
                        if !(0x30 <= cu && cu <= 0x39) {
                            break;
                        }
                        e = e + 1;
                    }
                    proof {
                        lemma_digit_run_end(v@, d as int, e as int);
                    }
                    return match parse_digits(&v, d, e) {
                        Some(num) => {
                            if kind_movie {
                                Some(Id::Movie { id: num })
                            } else {
                                Some(Id::Tv { id: num })
                            }
                        },
                        None => None,
                    };
                } else {
                    proof {
                        assert(!url_match_at(v@, i as int));
                    }
                }
            },
            None => {},
        }
        i = i + 1;
    }
    proof {
        lemma_first_url_match_skip(v@, n as int);
    }
    None
}


/// A language tag as TMDB reports it, reduced to the three cases the
/// title-selection rules care about.
#[derive(Debug, Clone, Copy, PartialEq, Eq, PartialOrd, Ord, Hash, Structural)]
pub enum LangCode {
    /// Japanese (`JP` or `ja`).
    Japanese,
    /// English (`US`, `GB` or `en`).
    English,
    /// Any other tag.
    Other,
}

/// The language a country or language tag denotes.
pub open spec fn spec_lang_from_code(s: Seq<char>) -> LangCode {
    if s == "JP"@ || s == "ja"@ {
        LangCode::Japanese
    } else if s == "US"@ || s == "GB"@ || s == "en"@ {
        LangCode::English
    } else {
        LangCode::Other
    }
}

impl LangCode {
    /// Reads a country or language tag.
    pub fn from_code(s: &str) -> (r: LangCode)
        ensures
            r == spec_lang_from_code(s@),
    {
        if str_eq(s, "JP") || str_eq(s, "ja") {
            LangCode::Japanese
        } else if str_eq(s, "US") || str_eq(s, "GB") || str_eq(s, "en") {
            LangCode::English
        } else {
            LangCode::Other
        }
    }
}

/// What lowercasing a character sequence returns.  Stands for the result
/// of `str::to_lowercase`, which depends on the characters alone.
pub uninterp spec fn lower_of(s: Seq<char>) -> Seq<char>;

/// Relies on `str::to_lowercase`: the result is a function of the
/// characters of the input alone.
#[verifier::external_body]
fn lowercase(s: &str) -> (r: String)
    ensures
        r@ == lower_of(s@),
{
    s.to_lowercase()
}

/// One entry of a record's alternative-title list.
#[derive(Debug, Clone)]
pub struct AlternativeTitle {
    /// The language tag the title was reported under.
    pub lang: LangCode,
    /// The title text.
    pub title: String,
    /// The free-form kind annotation (`Romaji`, `Hepburn romanization`, ...).
    pub info: String,
}

/// Whether an alternative title counts as a romanization: it is tagged
/// Japanese and its kind annotation, lowercased, mentions `roma` or
/// `hepburn` -- or the annotation is empty and the title is plain ASCII.
pub open spec fn spec_is_romaji(t: AlternativeTitle) -> bool {
    &&& t.lang == LangCode::Japanese
    &&& {
        ||| has_substring(lower_of(t.info@), "roma"@)
        ||| has_substring(lower_of(t.info@), "hepburn"@)
        ||| (t.info@.len() == 0 && vstd::utf8::is_ascii_chars(t.title@))
    }
}

impl AlternativeTitle {
    /// Whether this title counts as a romanization.
    pub fn is_romaji(&self) -> (r: bool)
        ensures
            r == spec_is_romaji(*self),
    {
        if !matches!(self.lang, LangCode::Japanese) {
            false
        } else {
            // The kind annotation is not consistent between entries: accept
            // anything that mentions a romanization once lowercased, or an
            // unannotated plain-ASCII title.
            let lower = lowercase(self.info.as_str());
            let lv = chars_of(lower.as_str());
            let roma = chars_of("roma");
            let hepburn = chars_of("hepburn");
            find_substring(&lv, &roma) || find_substring(&lv, &hepburn) || (
            self.info.as_str().is_empty() && self.title.as_str().is_ascii())
        }
    }
}

/// The index of the first romanization in a title list, or its length
/// when none qualifies.
pub open spec fn first_romaji_index(ts: Seq<AlternativeTitle>) -> int
    decreases ts.len(),
{
    if ts.len() == 0 {
        0
    } else if spec_is_romaji(ts[0]) {
        0
    } else {
        1 + first_romaji_index(ts.drop_first())
    }
}

/// The index of the first Japanese-tagged title in a list, or its length
/// when none is.
pub open spec fn first_japanese_index(ts: Seq<AlternativeTitle>) -> int
    decreases ts.len(),
{
    if ts.len() == 0 {
        0
    } else if ts[0].lang == LangCode::Japanese {
        0
    } else {
        1 + first_japanese_index(ts.drop_first())
    }
}

proof fn lemma_first_romaji_index(ts: Seq<AlternativeTitle>, i: int)
    requires
        0 <= i <= ts.len(),
        forall|k: int| 0 <= k < i ==> !spec_is_romaji(ts[k]),
        i < ts.len() ==> spec_is_romaji(ts[i]),
    ensures
        first_romaji_index(ts) == i,
    decreases i,
{
    if ts.len() == 0 || i == 0 {
    } else {
        let t = ts.drop_first();
        assert(forall|k: int| 0 <= k < i - 1 ==> t[k] == ts[k + 1]);
        assert(i - 1 < t.len() ==> t[i - 1] == ts[i]);
        lemma_first_romaji_index(t, i - 1);
    }
}

proof fn lemma_first_japanese_index(ts: Seq<AlternativeTitle>, i: int)
    requires
        0 <= i <= ts.len(),
        forall|k: int| 0 <= k < i ==> ts[k].lang != LangCode::Japanese,
        i < ts.len() ==> ts[i].lang == LangCode::Japanese,
    ensures
        first_japanese_index(ts) == i,
    decreases i,
{
    if ts.len() == 0 || i == 0 {
    } else {
        let t = ts.drop_first();
        assert(forall|k: int| 0 <= k < i - 1 ==> t[k] == ts[k + 1]);
        assert(i - 1 < t.len() ==> t[i - 1] == ts[i]);
        lemma_first_japanese_index(t, i - 1);
    }
}

/// A record's alternative-title list.
#[derive(Debug, Clone)]
pub struct AlternativeTitles {
    /// The titles, in the order the API reported them.
    pub titles: Vec<AlternativeTitle>,
}

impl AlternativeTitles {
    /// The first title that counts as a romanization, if any.
    pub fn romaji(&self) -> (r: Option<String>)
        ensures
            (match r {
                Some(t) => first_romaji_index(self.titles@) < self.titles@.len() && t@
                    == self.titles@[first_romaji_index(self.titles@)].title@,
                None => first_romaji_index(self.titles@) == self.titles@.len(),
            }),
    {
        let n = self.titles.len();
        let mut i: usize = 0;
        while i < n
            invariant
                n == self.titles@.len(),
                i <= n,
                forall|k: int| 0 <= k < i ==> !spec_is_romaji(self.titles@[k]),
            decreases n - i,
        {
            if self.titles[i].is_romaji() {
                proof {
                    lemma_first_romaji_index(self.titles@, i as int);
                }
                return Some(self.titles[i].title.clone());
            }
            i = i + 1;
        }
        proof {
            lemma_first_romaji_index(self.titles@, n as int);
        }
        None
    }

    /// The first Japanese-tagged title, if any.
    fn first_japanese(&self) -> (r: Option<String>)
        ensures
            (match r {
                Some(t) => first_japanese_index(self.titles@) < self.titles@.len() && t@
                    == self.titles@[first_japanese_index(self.titles@)].title@,
                None => first_japanese_index(self.titles@) == self.titles@.len(),
            }),
    {
        let n = self.titles.len();
        let mut i: usize = 0;
        while i < n
            invariant
                n == self.titles@.len(),
                i <= n,
                forall|k: int| 0 <= k < i ==> self.titles@[k].lang != LangCode::Japanese,
            decreases n - i,
        {
            if matches!(self.titles[i].lang, LangCode::Japanese) {
                proof {
                    lemma_first_japanese_index(self.titles@, i as int);
                }
                return Some(self.titles[i].title.clone());
            }
            i = i + 1;
        }
        proof {
            lemma_first_japanese_index(self.titles@, n as int);
        }
        None
    }
}

/// The character sequence an optional string holds, if any.
pub open spec fn opt_chars(o: Option<String>) -> Option<Seq<char>> {
    match o {
        Some(s) => Some(s@),
        None => None,
    }
}

/// A TMDB record, reduced to what the title-selection rules read.
#[derive(Debug)]
pub struct Info {
    /// The identifier the record was fetched for.
    pub id: Id,
    /// Whether TMDB marks the record as adult-only.
    pub adult: bool,
    /// The language of the original release.
    pub original_language: LangCode,
    /// The title in the original language.
    pub original_title: String,
    /// The English-localized title.
    pub title: String,
    /// The alternative titles of the record.
    pub alternative_titles: AlternativeTitles,
}

/// The English title a record yields: the original title when the record
/// is originally English, else the localized title when it is free of
/// Japanese script, else nothing.
pub open spec fn spec_english_title(info: Info) -> Option<Seq<char>> {
    if info.original_language == LangCode::English {
        Some(info.original_title@)
    } else if no_japanese_chars(info.title@) {
        Some(info.title@)
    } else {
        None
    }
}

/// The native title a record yields: the original title when the record
/// is originally Japanese, else the first Japanese-tagged alternative.
pub open spec fn spec_native_title(info: Info) -> Option<Seq<char>> {
    if info.original_language == LangCode::Japanese {
        Some(info.original_title@)
    } else {
        let ts = info.alternative_titles.titles@;
        if first_japanese_index(ts) < ts.len() {
            Some(ts[first_japanese_index(ts)].title@)
        } else {
            None
        }
    }
}

/// The romaji title a record yields: the first romanization among the
/// alternatives, else the English title, else the original title.
pub open spec fn spec_romaji_title(info: Info) -> Seq<char> {
    let ts = info.alternative_titles.titles@;
    if first_romaji_index(ts) < ts.len() {
        ts[first_romaji_index(ts)].title@
    } else {
        match spec_english_title(info) {
            Some(e) => e,
            None => info.original_title@,
        }
    }
}

impl Info {
    /// Reduces the record to its romaji / english / native title triple.
    pub fn titles(&self) -> (r: MediaTitle)
        ensures
            r.romaji@ == spec_romaji_title(*self),
            opt_chars(r.english) == spec_english_title(*self),
            opt_chars(r.native) == spec_native_title(*self),
    {
        let romaji = self.alternative_titles.romaji();
        let english = if matches!(self.original_language, LangCode::English) {
            Some(self.original_title.clone())
        } else if all_non_japanese(self.title.as_str()) {
            Some(self.title.clone())
        } else {
            None
        };
        let native = if matches!(self.original_language, LangCode::Japanese) {
            Some(self.original_title.clone())
        } else {
            self.alternative_titles.first_japanese()
        };
        let romaji = match romaji {
            Some(romaji) => romaji,
            None => match &english {
                Some(english) => english.clone(),
                None => self.original_title.clone(),
            },
        };
        MediaTitle { romaji, english, native }
    }

    /// Whether TMDB marks the record as adult-only.
    pub fn is_adult(&self) -> (r: bool)
        ensures
            r == self.adult,
    {
        self.adult
    }
}

/// One entry of a TMDB multi-search response.
#[derive(Debug, Clone)]
pub struct SearchResult {
    /// The numeric id of the entry.
    pub id: u32,
    /// The kind of the entry (`tv`, `movie`, `person`, ...).
    pub media_type: String,
}

/// The identifier a search result denotes, if its kind is one served
/// here.
pub open spec fn spec_to_id(r: SearchResult) -> Option<Id> {
    if r.media_type@ == "tv"@ {
        Some(Id::Tv { id: r.id })
    } else if r.media_type@ == "movie"@ {
        Some(Id::Movie { id: r.id })
    } else {
        None
    }
}

impl SearchResult {
    /// The identifier this search result denotes, if any.
    pub fn to_id(&self) -> (r: Option<Id>)
        ensures
            r == spec_to_id(*self),
    {
        if str_eq(self.media_type.as_str(), "tv") {
            Some(Id::Tv { id: self.id })
        } else if str_eq(self.media_type.as_str(), "movie") {
            Some(Id::Movie { id: self.id })
        } else {
            None
        }
    }
}

} // verus!
