use gotd_bot::gameinfo::{parse_date, parse_image, platforms_display, Characteristic, Game, GameImage};

fn empty_image() -> GameImage {
    GameImage {
        original_url: None,
        super_url: None,
        screen_url: None,
        screen_large_url: None,
        medium_url: None,
        small_url: None,
        thumb_url: None,
        icon_url: None,
        tiny_url: None,
    }
}

fn characteristic(name: &str) -> Characteristic {
    Characteristic {
        api_detail_url: String::new(),
        id: 0,
        name: name.to_string(),
        site_detail_url: String::new(),
        abbreviation: None,
    }
}

#[test]
fn parse_date_parses_original_date() {
    let mut original_date_game = Game::default();
    original_date_game.original_release_date = Some(String::from("2021-03-10"));
    assert_eq!(parse_date(&original_date_game), "Mar 10, 2021");
}

#[test]
fn parse_date_parses_expected_ymd_date() {
    let mut game = Game::default();
    game.expected_release_year = Some(2021);
    game.expected_release_month = Some(3);
    game.expected_release_day = Some(10);
    assert_eq!(parse_date(&game), "Mar 10, 2021");
}

#[test]
fn parse_date_parses_expected_ym_date() {
    let mut game = Game::default();
    game.expected_release_year = Some(2021);
    game.expected_release_month = Some(3);
    assert_eq!(parse_date(&game), "Mar 2021");
}

#[test]
fn parse_date_parses_expected_y_quarter_date() {
    let mut game = Game::default();
    game.expected_release_year = Some(2021);
    game.expected_release_quarter = Some(3);
    assert_eq!(parse_date(&game), "Q3 2021");
}

#[test]
fn parse_date_parses_expected_y_date() {
    let mut game = Game::default();
    game.expected_release_year = Some(2021);
    assert_eq!(parse_date(&game), "2021");
}

#[test]
fn parse_date_returns_no_date_listed_when_all_none() {
    let game = Game::default();
    assert_eq!(parse_date(&game), "No date listed");
}

#[test]
fn parse_date_pads_single_digit_days() {
    let mut game = Game::default();
    game.original_release_date = Some(String::from("2021-03-05"));
    assert_eq!(parse_date(&game), "Mar  5, 2021");
}

#[test]
fn parse_date_invalid_month_falls_through_to_quarter() {
    let mut game = Game::default();
    game.expected_release_year = Some(2021);
    game.expected_release_month = Some(13);
    game.expected_release_day = Some(10);
    game.expected_release_quarter = Some(2);
    assert_eq!(parse_date(&game), "Q2 2021");
}

#[test]
fn parse_date_unparsable_original_falls_through() {
    let mut game = Game::default();
    game.original_release_date = Some(String::from("soon"));
    game.expected_release_year = Some(1999);
    assert_eq!(parse_date(&game), "1999");
}

#[test]
fn parse_image_empty_without_image() {
    let game = Game::default();
    assert_eq!(parse_image(&game), "");
}

#[test]
fn parse_image_prefers_super_url() {
    let mut game = Game::default();
    let mut img = empty_image();
    img.super_url = Some(String::from("https://example.test/super.png"));
    img.screen_url = Some(String::from("https://example.test/screen.png"));
    img.tiny_url = Some(String::from("https://example.test/tiny.png"));
    game.image = Some(img);
    assert_eq!(parse_image(&game), "https://example.test/super.png");
}

#[test]
fn parse_image_falls_back_in_size_order() {
    let mut game = Game::default();
    let mut img = empty_image();
    img.thumb_url = Some(String::from("https://example.test/thumb.png"));
    img.tiny_url = Some(String::from("https://example.test/tiny.png"));
    game.image = Some(img);
    assert_eq!(parse_image(&game), "https://example.test/thumb.png");
    let mut game2 = Game::default();
    game2.image = Some(empty_image());
    assert_eq!(parse_image(&game2), "");
}

#[test]
fn platforms_display_joins_names() {
    let mut game = Game::default();
    game.platforms = Some(vec![
        characteristic("PC"),
        characteristic("Mac"),
        characteristic("Linux"),
    ]);
    assert_eq!(platforms_display(&game), "PC, Mac, Linux");
}

#[test]
fn platforms_display_without_platforms() {
    let game = Game::default();
    assert_eq!(platforms_display(&game), "No platforms");
    let mut empty_list = Game::default();
    empty_list.platforms = Some(Vec::new());
    assert_eq!(platforms_display(&empty_list), "");
}
