use crate::text::{i64_to_string, int_text};
use vstd::prelude::*;
use vstd::string::StringExecFns;

verus! {

/// The images a game-metadata record offers, by size.
pub struct GameImage {
    pub original_url: Option<String>,
    pub super_url: Option<String>,
    pub screen_url: Option<String>,
    pub screen_large_url: Option<String>,
    pub medium_url: Option<String>,
    pub small_url: Option<String>,
    pub thumb_url: Option<String>,
    pub icon_url: Option<String>,
    pub tiny_url: Option<String>,
}

/// A named trait of a game (a platform, a theme, a developer).
pub struct Characteristic {
    pub api_detail_url: String,
    pub id: i32,
    pub name: String,
    pub site_detail_url: String,
    pub abbreviation: Option<String>,
}

/// One game-metadata record, as the metadata service reports it.
pub struct Game {
    pub id: i32,
    pub guid: String,
    pub image: Option<GameImage>,
    pub name: String,
    pub deck: Option<String>,
    pub description: Option<String>,
    pub original_release_date: Option<String>,
    pub site_detail_url: Option<String>,
    pub expected_release_day: Option<i32>,
    pub expected_release_month: Option<i32>,
    pub expected_release_year: Option<i32>,
    pub expected_release_quarter: Option<i32>,
    pub platforms: Option<Vec<Characteristic>>,
    pub concepts: Option<Vec<Characteristic>>,
    pub developers: Option<Vec<Characteristic>>,
    pub characters: Option<Vec<Characteristic>>,
    pub themes: Option<Vec<Characteristic>>,
}

impl Default for Game {
    /// A record with every field empty.
    fn default() -> (r: Game)
        ensures
            r.id == 0,
            r.guid@ == Seq::<char>::empty(),
            r.image is None,
            r.name@ == Seq::<char>::empty(),
            r.deck is None,
            r.description is None,
            r.original_release_date is None,
            r.site_detail_url is None,
            r.expected_release_day is None,
            r.expected_release_month is None,
            r.expected_release_year is None,
            r.expected_release_quarter is None,
            r.platforms is None,
            r.concepts is None,
            r.developers is None,
            r.characters is None,
            r.themes is None,
    {
        Game {
            id: 0,
            guid: String::new(),
            image: None,
            name: String::new(),
            deck: None,
            description: None,
            original_release_date: None,
            site_detail_url: None,
            expected_release_day: None,
            expected_release_month: None,
            expected_release_year: None,
            expected_release_quarter: None,
            platforms: None,
            concepts: None,
            developers: None,
            characters: None,
            themes: None,
        }
    }
}

/// The calendar day a `%Y-%m-%d` text names, if it parses: year, month, day.
pub uninterp spec fn ymd_parse(s: Seq<char>) -> Option<(i32, u32, u32)>;

/// The `%b %e, %Y` rendering of a calendar day (month abbreviation,
/// space-padded day, year).
pub uninterp spec fn month_day_year_text(y: i32, m: u32, d: u32) -> Seq<char>;

/// The `%b %Y` rendering of a calendar day (month abbreviation and year).
pub uninterp spec fn month_year_text(y: i32, m: u32, d: u32) -> Seq<char>;

/// Relies on chrono::NaiveDate::parse_from_str with the format "%Y-%m-%d":
/// whether the text parses, and the calendar day it names, depend on the
/// text alone.
#[verifier::external_body]
fn parse_ymd_text(s: &str) -> (r: Option<(i32, u32, u32)>)
    ensures
        r == ymd_parse(s@),
{
    match chrono::NaiveDate::parse_from_str(s, "%Y-%m-%d") {
        Ok(d) => Some(
            (chrono::Datelike::year(&d), chrono::Datelike::month(&d), chrono::Datelike::day(&d)),
        ),
        Err(_) => None,
    }
}

/// Relies on chrono::NaiveDate::from_ymd_opt and chrono's "%b %e, %Y"
/// formatting, which uses fixed English month abbreviations: the text is a
/// function of the calendar day alone. A day no calendar holds yields empty
/// text.
#[verifier::external_body]
fn format_month_day_year(y: i32, m: u32, d: u32) -> (r: String)
    ensures
        r@ == month_day_year_text(y, m, d),
{
    match chrono::NaiveDate::from_ymd_opt(y, m, d) {
        Some(date) => date.format("%b %e, %Y").to_string(),
        None => String::new(),
    }
}

/// Relies on chrono::NaiveDate::from_ymd_opt and chrono's "%b %Y"
/// formatting, which uses fixed English month abbreviations: the text is a
/// function of the calendar day alone. A day no calendar holds yields empty
/// text.
#[verifier::external_body]
fn format_month_year(y: i32, m: u32, d: u32) -> (r: String)
    ensures
        r@ == month_year_text(y, m, d),
{
    match chrono::NaiveDate::from_ymd_opt(y, m, d) {
        Some(date) => date.format("%b %Y").to_string(),
        None => String::new(),
    }
}

/// The text `{y}-{m}-{d}`, from which a release day given as three numbers
/// is read back as a calendar day.
pub open spec fn dash_ymd_text(y: i32, m: i32, d: i32) -> Seq<char> {
    int_text(y as int) + seq!['-'] + int_text(m as int) + seq!['-'] + int_text(d as int)
}

/// The text `{y}-{m}-01`, from which a release month given as two numbers is
/// read back as a calendar day.
pub open spec fn dash_ym01_text(y: i32, m: i32) -> Seq<char> {
    int_text(y as int) + seq!['-'] + int_text(m as int) + seq!['-', '0', '1']
}

/// The release date taken from the record's own `%Y-%m-%d` release text.
pub open spec fn original_date_display(g: Game) -> Option<Seq<char>> {
    match g.original_release_date {
        Some(s) => match ymd_parse(s@) {
            Some(t) => Some(month_day_year_text(t.0, t.1, t.2)),
            None => None,
        },
        None => None,
    }
}

/// The release date taken from the expected year, month and day fields.
pub open spec fn expected_ymd_display(g: Game) -> Option<Seq<char>> {
    match (g.expected_release_year, g.expected_release_month, g.expected_release_day) {
        (Some(y), Some(m), Some(d)) => match ymd_parse(dash_ymd_text(y, m, d)) {
            Some(t) => Some(month_day_year_text(t.0, t.1, t.2)),
            None => None,
        },
        _ => None,
    }
}

/// The release month taken from the expected year and month fields.
pub open spec fn expected_ym_display(g: Game) -> Option<Seq<char>> {
    match (g.expected_release_year, g.expected_release_month) {
        (Some(y), Some(m)) => match ymd_parse(dash_ym01_text(y, m)) {
            Some(t) => Some(month_year_text(t.0, t.1, t.2)),
            None => None,
        },
        _ => None,
    }
}

/// The release quarter, `Q{q} {y}`.
pub open spec fn quarter_display(g: Game) -> Option<Seq<char>> {
    match (g.expected_release_year, g.expected_release_quarter) {
        (Some(y), Some(q)) => Some(
            seq!['Q'] + int_text(q as int) + seq![' '] + int_text(y as int),
        ),
        _ => None,
    }
}

/// The bare expected release year.
pub open spec fn year_display(g: Game) -> Option<Seq<char>> {
    match g.expected_release_year {
        Some(y) => Some(int_text(y as int)),
        None => None,
    }
}

/// The release-date line of a game: the first of the record's date forms
/// that yields a calendar day — the release text, the expected
/// year/month/day, the expected year/month, the expected quarter, the bare
/// year — or a fixed notice when none does.
pub open spec fn date_display(g: Game) -> Seq<char> {
    if original_date_display(g) is Some {
        original_date_display(g)->Some_0
    } else if expected_ymd_display(g) is Some {
        expected_ymd_display(g)->Some_0
    } else if expected_ym_display(g) is Some {
        expected_ym_display(g)->Some_0
    } else if quarter_display(g) is Some {
        quarter_display(g)->Some_0
    } else if year_display(g) is Some {
        year_display(g)->Some_0
    } else {
        "No date listed"@
    }
}

fn dash_ymd(y: i32, m: i32, d: i32) -> (r: String)
    ensures
        r@ == dash_ymd_text(y, m, d),
{
    let mut s = i64_to_string(y as i64);
    proof {
        reveal_strlit("-");
        assert("-"@ =~= seq!['-']);
    }
    s.append("-");
    let mt = i64_to_string(m as i64);
    s.append(mt.as_str());
    s.append("-");
    let dt = i64_to_string(d as i64);
    s.append(dt.as_str());
    proof {
        assert(s@ =~= dash_ymd_text(y, m, d));
    }
    s
}

fn dash_ym01(y: i32, m: i32) -> (r: String)
    ensures
        r@ == dash_ym01_text(y, m),
{
    let mut s = i64_to_string(y as i64);
    proof {
        reveal_strlit("-");
        assert("-"@ =~= seq!['-']);
        reveal_strlit("-01");
        assert("-01"@ =~= seq!['-', '0', '1']);
    }
    s.append("-");
    let mt = i64_to_string(m as i64);
    s.append(mt.as_str());
    s.append("-01");
    proof {
        assert(s@ =~= dash_ym01_text(y, m));
    }
    s
}

/// The release-date line of a game, tried in the order the date forms get
/// less precise; a form whose numbers name no calendar day falls through to
/// the next.
pub fn parse_date(game: &Game) -> (r: String)
    ensures
        r@ == date_display(*game),
{
    if let Some(s) = &game.original_release_date {
        if let Some((y, m, d)) = parse_ymd_text(s.as_str()) {
            return format_month_day_year(y, m, d);
        }
    }
    let yo = game.expected_release_year;
    let mo = game.expected_release_month;
    let do_ = game.expected_release_day;
    let qo = game.expected_release_quarter;
    if yo.is_some() && mo.is_some() && do_.is_some() {
        let txt = dash_ymd(yo.unwrap(), mo.unwrap(), do_.unwrap());
        if let Some((y, m, d)) = parse_ymd_text(txt.as_str()) {
            return format_month_day_year(y, m, d);
        }
    }
    if yo.is_some() && mo.is_some() {
        let txt = dash_ym01(yo.unwrap(), mo.unwrap());
        if let Some((y, m, d)) = parse_ymd_text(txt.as_str()) {
            return format_month_year(y, m, d);
        }
    }
    if yo.is_some() && qo.is_some() {
        proof {
            reveal_strlit("Q");
            assert("Q"@ =~= seq!['Q']);
            reveal_strlit(" ");
            assert(" "@ =~= seq![' ']);
        }
        let mut s = String::from_str("Q");
        let qt = i64_to_string(qo.unwrap() as i64);
        s.append(qt.as_str());
        s.append(" ");
        let yt = i64_to_string(yo.unwrap() as i64);
        s.append(yt.as_str());
        proof {
            assert(s@ =~= quarter_display(*game)->Some_0);
        }
        return s;
    }
    if yo.is_some() {
        return i64_to_string(yo.unwrap() as i64);
    }
    String::from_str("No date listed")
}

/// The image line of a game: the first image URL the record offers, tried
/// from the largest size down, or empty text when the record has none.
pub open spec fn image_display(g: Game) -> Seq<char> {
    match g.image {
        Some(img) => if img.super_url is Some {
            img.super_url->Some_0@
        } else if img.screen_url is Some {
            img.screen_url->Some_0@
        } else if img.medium_url is Some {
            img.medium_url->Some_0@
        } else if img.small_url is Some {
            img.small_url->Some_0@
        } else if img.thumb_url is Some {
            img.thumb_url->Some_0@
        } else if img.icon_url is Some {
            img.icon_url->Some_0@
        } else if img.tiny_url is Some {
            img.tiny_url->Some_0@
        } else {
            Seq::empty()
        },
        None => Seq::empty(),
    }
}

/// The first image URL the record offers, tried from the largest size down.
pub fn parse_image(game: &Game) -> (r: String)
    ensures
        r@ == image_display(*game),
{
    match &game.image {
        Some(image) => {
            if let Some(u) = &image.super_url {
                return u.clone();
            }
            if let Some(u) = &image.screen_url {
                return u.clone();
            }
            if let Some(u) = &image.medium_url {
                return u.clone();
            }
            if let Some(u) = &image.small_url {
                return u.clone();
            }
            if let Some(u) = &image.thumb_url {
                return u.clone();
            }
            if let Some(u) = &image.icon_url {
                return u.clone();
            }
            if let Some(u) = &image.tiny_url {
                return u.clone();
            }
            String::new()
        },
        None => String::new(),
    }
}

/// The platform names of a game, joined with a comma and a space, in record
/// order.
pub open spec fn names_joined(ps: Seq<Characteristic>) -> Seq<char>
    decreases ps.len(),
{
    if ps.len() == 0 {
        Seq::empty()
    } else if ps.len() == 1 {
        ps[0].name@
    } else {
        names_joined(ps.drop_last()) + seq![',', ' '] + ps.last().name@
    }
}

/// The platforms line of a game: the platform names joined with a comma and
/// a space, or a fixed notice when the record lists none.
pub open spec fn platforms_display_text(g: Game) -> Seq<char> {
    match g.platforms {
        Some(ps) => names_joined(ps@),
        None => "No platforms"@,
    }
}

/// The platforms line of a game.
pub fn platforms_display(game: &Game) -> (r: String)
    ensures
        r@ == platforms_display_text(*game),
{
    match &game.platforms {
        Some(ps) => {
            let mut s = String::new();
            let mut i: usize = 0;
            while i < ps.len()
                invariant
                    i <= ps@.len(),
                    s@ == names_joined(ps@.take(i as int)),
                decreases ps@.len() - i,
            {
                proof {
                    assert(ps@.take(i as int + 1).drop_last() =~= ps@.take(i as int));
                    assert(ps@.take(i as int + 1).last() == ps@[i as int]);
                }
                if i > 0 {
                    proof {
                        reveal_strlit(", ");
                        assert(", "@ =~= seq![',', ' ']);
                    }
                    s.append(", ");
                }
                s.append(ps[i].name.as_str());
                proof {
                    assert(s@ =~= names_joined(ps@.take(i as int + 1)));
                }
                i += 1;
            }
            proof {
                assert(ps@.take(ps@.len() as int) =~= ps@);
            }
            s
        },
        None => String::from_str("No platforms"),
    }
}

} // verus!
