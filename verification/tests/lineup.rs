use mlb_lineup::lineup::{
    deliver_photo, game_sources, Game, GameSource, Image, Photo, Schedule, Snippet,
};

/// A tiny valid JPEG, encoded on the spot.
fn jpeg_bytes(width: u32, height: u32) -> Vec<u8> {
    let raster = image::RgbaImage::from_raw(width, height, vec![255u8; (width * height * 4) as usize])
        .unwrap();
    let mut bytes: Vec<u8> = Vec::new();
    image::DynamicImage::ImageRgba8(raster)
        .write_to(&mut std::io::Cursor::new(&mut bytes), image::ImageOutputFormat::Jpeg(100))
        .unwrap();
    bytes
}

#[test]
fn deliver_photo_decodes_and_delivers() {
    let (mut photo, tx) = Photo::new();
    let delivered = deliver_photo(&jpeg_bytes(2, 4), &tx).expect("a JPEG must decode");
    assert!(delivered);
    let got = photo.get().expect("the delivered image must be cached");
    assert_eq!(got.width, 2);
    assert_eq!(got.height, 4);
}

#[test]
fn deliver_photo_rejects_other_bytes() {
    let (mut photo, tx) = Photo::new();
    assert!(deliver_photo(&vec![1u8, 2, 3, 4], &tx).is_err());
    assert!(photo.get().is_none());
}

#[test]
fn deliver_photo_without_receiver_is_silent() {
    let (photo, tx) = Photo::new();
    drop(photo);
    let delivered = deliver_photo(&jpeg_bytes(2, 2), &tx).expect("a JPEG must decode");
    assert!(!delivered);
}

fn image(tag: u8) -> Image {
    Image { width: 2, height: 1, pixels: vec![tag, tag, tag, tag, tag, tag, tag, tag] }
}

fn large_default() -> Image {
    image(200)
}

fn small_default() -> Image {
    image(100)
}

/// A game whose photos never arrive: both senders are dropped at once, as if
/// the background fetches had failed.
fn pending_game(n: usize) -> Game {
    let (large, _large_tx) = Photo::new();
    let (small, _small_tx) = Photo::new();
    Game::new(format!("headline {}", n), format!("subhead {}", n), large, small)
}

fn pending_schedule(n: usize) -> Schedule {
    let mut games = Vec::new();
    for i in 0..n {
        games.push(pending_game(i));
    }
    Schedule::new(games)
}

/// Testing that a broken send channel due to a failed download
/// doesn't unexpectedly panic us or something.
#[test]
fn broken_photo_channel() {
    let (mut photo, tx) = Photo::new();
    assert!(photo.get().is_none());
    drop(tx);
    assert!(photo.get().is_none());
}

#[test]
fn absorb_caches_a_delivery() {
    let (mut photo, _tx) = Photo::new();
    let got = photo.absorb(Some(image(3)));
    assert_eq!(got.expect("an absorbed image must be returned").pixels, image(3).pixels);
    // The absorbed image is the cache from now on.
    assert_eq!(photo.get().expect("the absorbed image must be cached").pixels, image(3).pixels);
}

#[test]
fn absorb_of_nothing_changes_nothing() {
    let (mut photo, _tx) = Photo::new();
    assert!(photo.absorb(None).is_none());
    assert!(photo.get().is_none());
}

#[test]
fn photo_empty_until_delivery_then_cached() {
    let (mut photo, tx) = Photo::new();
    for _ in 0..10 {
        assert!(photo.get().is_none());
    }
    tx.send(image(7)).unwrap();
    drop(tx);
    for _ in 0..10 {
        let got = photo.get().expect("the delivered image must be cached");
        assert_eq!(got.width, 2);
        assert_eq!(got.height, 1);
        assert_eq!(got.pixels, image(7).pixels);
    }
}

#[test]
fn photo_failed_task_returns_empty_forever() {
    let (mut photo, tx) = Photo::new();
    // The producing task goes away without ever sending, as it does when the
    // source locator cannot be parsed.
    drop(tx);
    for _ in 0..100 {
        assert!(photo.get().is_none());
    }
}

#[test]
fn cursor_saturates_at_both_ends() {
    let mut schedule = pending_schedule(14);
    assert!(!schedule.has_less());
    schedule.left();
    assert!(!schedule.has_less());

    // The cursor saturates at index 12: the very last game is unreachable.
    for _ in 0..50 {
        schedule.right();
    }
    assert!(!schedule.has_more());
    let ld = large_default();
    let sd = small_default();
    let page = schedule.page(&ld, &sd);
    // Page 2 of 14 games: indices 10, 11 and 12; index 13 never shows.
    assert_eq!(page.len(), 3);
    assert!(matches!(page[2], Snippet::Large(..)));

    for _ in 0..50 {
        schedule.left();
    }
    let page = schedule.page(&ld, &sd);
    assert_eq!(page.len(), 5);
    assert!(matches!(page[0], Snippet::Large(..)));
}

#[test]
fn mixed_navigation_never_escapes() {
    let mut schedule = pending_schedule(14);
    let ld = large_default();
    let sd = small_default();
    // An arbitrary mix of signals, heavy on the right, bouncing off both
    // ends: after every step the page must still be well formed.
    let rights = [
        true, true, false, true, true, true, true, false, false, false, false, false, true, true,
        true, true, true, true, true, true, true, true, true, true, false, true, true, false,
        false, true, true, true,
    ];
    for &right in rights.iter() {
        if right {
            schedule.right();
        } else {
            schedule.left();
        }
        let page = schedule.page(&ld, &sd);
        assert!((1..=5).contains(&page.len()));
        let focused = page.iter().filter(|s| matches!(s, Snippet::Large(..))).count();
        assert_eq!(focused, 1);
    }
}

#[test]
fn page_boundaries_fourteen_games() {
    // 14 games, cursor 7: page 1, window indices 5 through 9, focus at
    // window index 2.
    let mut schedule = pending_schedule(14);
    for _ in 0..7 {
        schedule.right();
    }
    assert!(schedule.has_less());
    assert!(schedule.has_more());
    let ld = large_default();
    let sd = small_default();
    let page = schedule.page(&ld, &sd);
    assert_eq!(page.len(), 5);
    for (i, snippet) in page.iter().enumerate() {
        match snippet {
            Snippet::Large(img, headline, subhead) => {
                assert_eq!(i, 2);
                assert_eq!(headline, "headline 7");
                assert_eq!(subhead, "subhead 7");
                assert_eq!(img.pixels, large_default().pixels);
            }
            Snippet::Small(img) => {
                assert_ne!(i, 2);
                assert_eq!(img.pixels, small_default().pixels);
            }
        }
    }
}

#[test]
fn has_less_has_more_thresholds() {
    let mut schedule = pending_schedule(14);
    for cursor in 0..=12 {
        // has_less flips at the page size; has_more iff cursor < 14 - 5.
        assert_eq!(schedule.has_less(), cursor >= 5, "cursor {}", cursor);
        assert_eq!(schedule.has_more(), cursor < 9, "cursor {}", cursor);
        schedule.right();
    }
}

#[test]
fn every_page_has_exactly_one_focused_snippet() {
    let mut schedule = pending_schedule(14);
    let ld = large_default();
    let sd = small_default();
    for _cursor in 0..=12 {
        let page = schedule.page(&ld, &sd);
        assert!(page.len() <= 5);
        let focused = page
            .iter()
            .filter(|s| matches!(s, Snippet::Large(..)))
            .count();
        assert_eq!(focused, 1);
        schedule.right();
    }
}

#[test]
fn delivered_photo_shows_in_page_instead_of_default() {
    let (large, large_tx) = Photo::new();
    let (small, _small_tx) = Photo::new();
    let mut games = vec![Game::new(
        "arrived".to_string(),
        "sub".to_string(),
        large,
        small,
    )];
    for i in 1..6 {
        games.push(pending_game(i));
    }
    let mut schedule = Schedule::new(games);

    large_tx.send(image(9)).unwrap();
    let ld = large_default();
    let sd = small_default();
    let page = schedule.page(&ld, &sd);
    match &page[0] {
        Snippet::Large(img, headline, _) => {
            assert_eq!(headline, "arrived");
            assert_eq!(img.pixels, image(9).pixels);
            assert_ne!(img.pixels, large_default().pixels);
        }
        Snippet::Small(_) => panic!("the focused snippet must be the large variant"),
    }

    // The cache holds across frames even though the channel is now empty.
    let page = schedule.page(&ld, &sd);
    match &page[0] {
        Snippet::Large(img, _, _) => assert_eq!(img.pixels, image(9).pixels),
        Snippet::Small(_) => panic!("the focused snippet must be the large variant"),
    }
}

fn api_photo(width: u32, height: u32, src: &str) -> mlb_lineup::api::Photo {
    mlb_lineup::api::Photo { width, height, src: src.to_string() }
}

fn api_game(headline: &str, subhead: &str, large_src: &str, small_src: &str) -> mlb_lineup::api::Game {
    mlb_lineup::api::Game {
        content: mlb_lineup::api::Content {
            editorial: mlb_lineup::api::Editorial {
                recap: mlb_lineup::api::Recap {
                    home: mlb_lineup::api::Home {
                        headline: headline.to_string(),
                        subhead: subhead.to_string(),
                        photo: mlb_lineup::api::Photos {
                            cuts: mlb_lineup::api::Cuts {
                                large: api_photo(480, 270, large_src),
                                small: api_photo(320, 180, small_src),
                            },
                        },
                    },
                },
            },
        },
    }
}

#[test]
fn game_sources_takes_most_recent_date() {
    let schedule = mlb_lineup::api::Schedule {
        copyright: "c".to_string(),
        dates: vec![
            mlb_lineup::api::Date {
                date: "2018-06-09".to_string(),
                games: vec![api_game("old", "old sub", "o-l", "o-s")],
            },
            mlb_lineup::api::Date {
                date: "2018-06-10".to_string(),
                games: vec![
                    api_game("first", "first sub", "f-l", "f-s"),
                    api_game("second", "second sub", "s-l", "s-s"),
                ],
            },
        ],
    };
    let sources: Vec<GameSource> = game_sources(schedule);
    assert_eq!(sources.len(), 2);
    assert_eq!(sources[0].headline, "first");
    assert_eq!(sources[0].subhead, "first sub");
    assert_eq!(sources[0].large_src, "f-l");
    assert_eq!(sources[0].small_src, "f-s");
    assert_eq!(sources[1].headline, "second");
    assert_eq!(sources[1].large_src, "s-l");
    assert_eq!(sources[1].small_src, "s-s");
}
