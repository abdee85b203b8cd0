//! The scrollable listing: pollable photo handles, games, and the
//! pagination/windowing engine that maps a scroll cursor onto a bounded
//! visible window.

use vstd::prelude::*;
use crate::api;

verus! {

/// A decoded raster image: its dimensions plus the raw pixel bytes.
pub struct Image {
    pub width: u32,
    pub height: u32,
    pub pixels: Vec<u8>,
}

/// The mathematical value of an [`Image`]: dimensions and pixel contents.
pub struct ImageView {
    pub width: u32,
    pub height: u32,
    pub pixels: Seq<u8>,
}

impl View for Image {
    type V = ImageView;

    open spec fn view(&self) -> ImageView {
        ImageView { width: self.width, height: self.height, pixels: self.pixels@ }
    }
}

impl Clone for Image {
    fn clone(&self) -> (r: Self)
        ensures
            r@ == self@,
    {
        Image { width: self.width, height: self.height, pixels: clone_bytes(&self.pixels) }
    }
}

fn clone_bytes(v: &Vec<u8>) -> (r: Vec<u8>)
    ensures
        r@ == v@,
{
    let mut r: Vec<u8> = Vec::new();
    let mut i: usize = 0;
    while i < v.len()
        invariant
            i <= v@.len(),
            r@ == v@.subrange(0, i as int),
        decreases v@.len() - i,
    {
        r.push(v[i]);
        i += 1;
    }
    proof {
        assert(r@ =~= v@);
    }
    r
}

/// The sending half of a crossbeam channel, declared so that it can stand
/// in signatures; Verus sees nothing inside a value of it.
#[verifier::external_type_specification]
#[verifier::external_body]
#[verifier::reject_recursive_types(T)]
pub struct ExSender<T>(crossbeam_channel::Sender<T>);

/// The receiving half of a crossbeam channel, declared so that it can stand
/// in signatures and fields; Verus sees nothing inside a value of it.
#[verifier::external_type_specification]
#[verifier::external_body]
#[verifier::reject_recursive_types(T)]
pub struct ExReceiver<T>(crossbeam_channel::Receiver<T>);

/// Relies on crossbeam_channel::bounded: hands back the sender and receiver
/// halves of a fresh channel with the given capacity.  The capacity bound
/// stays well clear of the sizes on which the constructor panics.
#[verifier::external_body]
fn bounded_image_channel(cap: usize) -> (crossbeam_channel::Sender<Image>, crossbeam_channel::Receiver<Image>)
    requires
        1 <= cap <= 65536,
{
    crossbeam_channel::bounded(cap)
}

/// Relies on crossbeam_channel::Receiver::try_recv: never blocks; yields a
/// message if one is waiting in the channel, and nothing otherwise (whether
/// the sending side is still alive or already gone).
#[verifier::external_body]
fn try_recv_image(inbox: &crossbeam_channel::Receiver<Image>) -> Option<Image> {
    match inbox.try_recv() {
        Ok(image) => Some(image),
        Err(_) => None,
    }
}

/// What decoding a byte string as a JPEG yields, if anything.  Decoding is a
/// pure function of the bytes alone, stated here by name only: its value on
/// given bytes is settled by running the decoder, never by a contract.
pub uninterp spec fn decoded_jpeg(bytes: Seq<u8>) -> Option<ImageView>;

/// Relies on image::load_from_memory_with_format: decodes the bytes as a
/// JPEG, yielding the raster for exactly the byte strings that are one.
#[verifier::external_body]
fn decode_jpeg(bytes: &Vec<u8>) -> (r: Result<Image, String>)
    ensures
        match r {
            Ok(image) => decoded_jpeg(bytes@) == Some(image@),
            Err(_) => decoded_jpeg(bytes@) is None,
        },
{
    match image::load_from_memory_with_format(bytes, image::ImageFormat::Jpeg) {
        Ok(decoded) => {
            let rgba = decoded.to_rgba8();
            let (width, height) = rgba.dimensions();
            Ok(Image { width, height, pixels: rgba.into_raw() })
        },
        Err(err) => Err(err.to_string()),
    }
}

/// Relies on crossbeam_channel::Sender::try_send: never blocks; delivers the
/// message iff the channel has room and its receiver still exists.
#[verifier::external_body]
fn try_send_image(outbox: &crossbeam_channel::Sender<Image>, image: Image) -> bool {
    outbox.try_send(image).is_ok()
}

/// The pure tail of a background fetch: decodes the downloaded bytes and, on
/// success, attempts to deliver the image into a photo's inbox.
///
/// Succeeds for exactly the byte strings that decode as a JPEG, handing back
/// whether the image was actually delivered: a vanished receiver (the owner
/// was dropped while the fetch was in flight) is a normal, silent
/// termination, not an error.  On any other bytes the error text is handed
/// back for the caller's diagnostic log, and nothing is sent.
pub fn deliver_photo(bytes: &Vec<u8>, outbox: &crossbeam_channel::Sender<Image>) -> (r: Result<
    bool,
    String,
>)
    ensures
        r is Ok <==> decoded_jpeg(bytes@) is Some,
{
    match decode_jpeg(bytes) {
        Ok(image) => Ok(try_send_image(outbox, image)),
        Err(err) => Err(err),
    }
}

/// A single remote image tracked through its fetch lifecycle: a one-slot
/// inbox fed by a background fetch task, and a cache that fills at most once
/// and is never cleared again.
pub struct Photo {
    photo: Option<Image>,
    channel: crossbeam_channel::Receiver<Image>,
}

impl Photo {
    /// The image delivered so far, if any: the observable state of the handle.
    pub closed spec fn cached(&self) -> Option<ImageView> {
        match self.photo {
            Some(image) => Some(image@),
            None => None,
        }
    }

    /// Creates an empty photo handle together with the sending half of its
    /// inbox.  The caller hands the sender to whatever task fetches and
    /// decodes the image; the handle polls the receiving half.  Returns
    /// immediately and never blocks.
    pub fn new() -> (r: (Photo, crossbeam_channel::Sender<Image>))
        ensures
            r.0.cached() is None,
    {
        let (sender, receiver) = bounded_image_channel(1);
        (Photo { photo: None, channel: receiver }, sender)
    }

    /// Absorbs the outcome of one non-blocking look at the inbox, while the
    /// cache is still empty: a delivered image is cached and returned, and
    /// an empty outcome leaves the cache untouched and returns the empty
    /// state.  This is the cache's one empty-to-full transition.
    pub fn absorb(&mut self, got: Option<Image>) -> (r: Option<&Image>)
        requires
            old(self).cached() is None,
        ensures
            match got {
                Some(image) => {
                    &&& final(self).cached() == Some(image@)
                    &&& r matches Some(ret) && ret@ == image@
                },
                None => {
                    &&& final(self).cached() is None
                    &&& r is None
                },
            },
    {
        match got {
            Some(image) => {
                self.photo = Some(image);
                self.photo.as_ref()
            },
            None => None,
        }
    }

    /// Retrieves the image of this photo without blocking.  Once an image
    /// has been cached, every later call returns that same image and never
    /// touches the channel again.  Otherwise one non-blocking look is taken
    /// at the inbox and absorbed: a waiting delivery is cached and returned,
    /// and an empty inbox leaves the empty state, whether the image is still
    /// in flight or its fetch has failed for good.
    pub fn get(&mut self) -> (r: Option<&Image>)
        ensures
            old(self).cached() is Some ==> final(self).cached() == old(self).cached(),
            match r {
                Some(image) => final(self).cached() == Some(image@),
                None => final(self).cached() is None,
            },
    {
        if self.photo.is_some() {
            return self.photo.as_ref();
        }
        let got = try_recv_image(&self.channel);
        self.absorb(got)
    }
}

/// One listed game: its display text plus the two photo size variants, the
/// large one shown when the game is focused and the small one otherwise.
pub struct Game {
    pub headline: String,
    pub subhead: String,
    large: Photo,
    small: Photo,
}

impl Game {
    /// The game's heading text.
    pub closed spec fn spec_headline(&self) -> String {
        self.headline
    }

    /// The game's subheading text.
    pub closed spec fn spec_subhead(&self) -> String {
        self.subhead
    }

    /// The state of the large-variant photo.
    pub closed spec fn large_cached(&self) -> Option<ImageView> {
        self.large.cached()
    }

    /// The state of the small-variant photo.
    pub closed spec fn small_cached(&self) -> Option<ImageView> {
        self.small.cached()
    }

    /// Assembles one game from its display text and its two photo handles.
    pub fn new(headline: String, subhead: String, large: Photo, small: Photo) -> (g: Game)
        ensures
            g.spec_headline() == headline,
            g.spec_subhead() == subhead,
            g.large_cached() == large.cached(),
            g.small_cached() == small.cached(),
    {
        Game { headline, subhead, large, small }
    }
}

/// The per-frame renderable unit for one game: the focused game carries its
/// large image and display text, every peripheral game only its small image.
pub enum Snippet {
    Small(Image),
    Large(Image, String, String),
}

/// The number of games on a page.
pub const PAGE_SIZE: usize = 5;

/// A scrollable listing of games: an ordered sequence, a cursor, and pages
/// of a fixed size.
pub struct Schedule {
    pub games: Vec<Game>,
    cursor: usize,
}

impl Schedule {
    /// The games of the listing, in display order.
    pub closed spec fn spec_games(&self) -> Seq<Game> {
        self.games@
    }

    /// The cursor: the index of the focused game.
    pub closed spec fn focus(&self) -> int {
        self.cursor as int
    }

    /// Well-formedness: enough games for the cursor's range `[0, len - 2]`
    /// to be inhabited, a length small enough for the window arithmetic, and
    /// the cursor inside its range.  The cursor never reaches the very last
    /// index.
    pub open spec fn wf(&self) -> bool {
        &&& 2 <= self.spec_games().len()
        &&& self.spec_games().len() + PAGE_SIZE <= usize::MAX
        &&& 0 <= self.focus() <= self.spec_games().len() - 2
    }

    /// The index of the current page.
    pub open spec fn page_index(&self) -> int {
        self.focus() / (PAGE_SIZE as int)
    }

    /// The first index of the visible window.
    pub open spec fn window_start(&self) -> int {
        self.page_index() * (PAGE_SIZE as int)
    }

    /// One past the last index of the visible window.  The bound stops one
    /// short of the listing's length: the final game never becomes visible.
    pub open spec fn window_end(&self) -> int {
        if self.window_start() + PAGE_SIZE < self.spec_games().len() - 1 {
            self.window_start() + PAGE_SIZE
        } else {
            self.spec_games().len() - 1
        }
    }

    /// Builds a listing over the given games with the cursor on the first.
    pub fn new(games: Vec<Game>) -> (s: Schedule)
        requires
            2 <= games@.len(),
            games@.len() + PAGE_SIZE <= usize::MAX,
        ensures
            s.wf(),
            s.spec_games() == games@,
            s.focus() == 0,
    {
        Schedule { games, cursor: 0 }
    }

    /// Moves the cursor one game to the left, saturating at the first game.
    pub fn left(&mut self)
        requires
            old(self).wf(),
        ensures
            final(self).wf(),
            final(self).spec_games() == old(self).spec_games(),
            final(self).focus() == if old(self).focus() > 0 {
                old(self).focus() - 1
            } else {
                0int
            },
    {
        if self.cursor > 0 {
            self.cursor = self.cursor - 1;
        }
    }

    /// Moves the cursor one game to the right, saturating one short of the
    /// last game.
    pub fn right(&mut self)
        requires
            old(self).wf(),
        ensures
            final(self).wf(),
            final(self).spec_games() == old(self).spec_games(),
            final(self).focus() == if old(self).focus() < old(self).spec_games().len() - 2 {
                old(self).focus() + 1
            } else {
                old(self).focus()
            },
    {
        if self.cursor < self.games.len() - 2 {
            self.cursor = self.cursor + 1;
        }
    }

    /// Queries whether there is an additional page of content to the left of
    /// the current page: true iff the cursor has passed the first page.
    pub fn has_less(&self) -> (r: bool)
        ensures
            r == (self.focus() >= PAGE_SIZE),
    {
        self.cursor > PAGE_SIZE - 1
    }

    /// Queries whether there is an additional page of content to the right of
    /// the current page: true iff at least one game lies beyond the current
    /// window.
    pub fn has_more(&self) -> (r: bool)
        ensures
            r == (self.focus() < self.spec_games().len() - PAGE_SIZE),
    {
        self.games.len() >= PAGE_SIZE && self.cursor < self.games.len() - PAGE_SIZE
    }

    /// Computes the snippets of the current page, polling each visible photo
    /// along the way.
    ///
    /// The window is the contiguous run of games `[window_start, window_end)`.
    /// The game under the cursor yields a focused snippet carrying its large
    /// image and display text; every other game in the window yields a
    /// peripheral snippet carrying its small image.  A photo that has not
    /// arrived yet is replaced by the matching fallback image.  Exactly one
    /// snippet of the page is focused.
    ///
    /// Only the shown variant of each window game is polled: the focused
    /// game's small photo and the peripheral games' large photos are left
    /// exactly as they were, and games outside the window are untouched.
    pub fn page(&mut self, large_default: &Image, small_default: &Image) -> (r: Vec<Snippet>)
        requires
            old(self).wf(),
        ensures
            final(self).wf(),
            final(self).focus() == old(self).focus(),
            final(self).spec_games().len() == old(self).spec_games().len(),
            forall|j: int|
                0 <= j < final(self).spec_games().len() ==> polled_from(
                    #[trigger] final(self).spec_games()[j],
                    old(self).spec_games()[j],
                ),
            forall|j: int|
                0 <= j < final(self).spec_games().len() && !(old(self).window_start() <= j
                    < old(self).window_end()) ==> final(self).spec_games()[j] == old(
                    self,
                ).spec_games()[j],
            forall|j: int|
                old(self).window_start() <= j < old(self).window_end() ==> only_variant_polled(
                    #[trigger] final(self).spec_games()[j],
                    old(self).spec_games()[j],
                    j == old(self).focus(),
                ),
            r@.len() == old(self).window_end() - old(self).window_start(),
            1 <= r@.len() <= PAGE_SIZE,
            forall|k: int|
                0 <= k < r@.len() ==> snippet_matches(
                    #[trigger] r@[k],
                    final(self).spec_games()[old(self).window_start() + k],
                    old(self).window_start() + k == old(self).focus(),
                    *large_default,
                    *small_default,
                ),
            count_focused(r@) == 1,
    {
        proof {
            lemma_window_brackets_cursor(self.focus());
        }
        let window_left: usize = (self.cursor / PAGE_SIZE) * PAGE_SIZE;
        let len: usize = self.games.len();
        let window_right: usize = if window_left + PAGE_SIZE < len - 1 {
            window_left + PAGE_SIZE
        } else {
            len - 1
        };
        let page_focus: usize = self.cursor % PAGE_SIZE;
        let mut snippets: Vec<Snippet> = Vec::new();
        let mut i: usize = window_left;
        while i < window_right
            invariant
                old(self).wf(),
                window_left == old(self).window_start(),
                window_right == old(self).window_end(),
                page_focus == old(self).focus() - old(self).window_start(),
                window_left <= i <= window_right,
                self.focus() == old(self).focus(),
                self.spec_games().len() == old(self).spec_games().len(),
                forall|j: int|
                    0 <= j < self.spec_games().len() ==> polled_from(
                        #[trigger] self.spec_games()[j],
                        old(self).spec_games()[j],
                    ),
                forall|j: int|
                    0 <= j < self.spec_games().len() && !(window_left <= j < i)
                        ==> self.spec_games()[j] == old(self).spec_games()[j],
                forall|j: int|
                    window_left <= j < i ==> only_variant_polled(
                        #[trigger] self.spec_games()[j],
                        old(self).spec_games()[j],
                        j == old(self).focus(),
                    ),
                snippets@.len() == i - window_left,
                forall|k: int|
                    0 <= k < snippets@.len() ==> snippet_matches(
                        #[trigger] snippets@[k],
                        self.spec_games()[window_left + k],
                        window_left + k == old(self).focus(),
                        *large_default,
                        *small_default,
                    ),
            decreases window_right - i,
        {
            let focused = i - window_left == page_focus;
            let game = &mut self.games[i];
            let snippet = if focused {
                let image = match game.large.get() {
                    Some(image) => image.clone(),
                    None => large_default.clone(),
                };
                Snippet::Large(image, game.headline.clone(), game.subhead.clone())
            } else {
                let image = match game.small.get() {
                    Some(image) => image.clone(),
                    None => small_default.clone(),
                };
                Snippet::Small(image)
            };
            snippets.push(snippet);
            i = i + 1;
        }
        proof {
            lemma_count_focused_single(snippets@, old(self).focus() - old(self).window_start());
        }
        snippets
    }
}

/// Per-game construction data drawn from the listing document: the display
/// text and the source locators of the two photo cuts.
pub struct GameSource {
    pub headline: String,
    pub subhead: String,
    pub large_src: String,
    pub small_src: String,
}

/// Whether one game source carries exactly the text and photo locators of
/// one game of the listing document.
pub open spec fn source_of(s: GameSource, g: api::Game) -> bool {
    &&& s.headline == g.content.editorial.recap.home.headline
    &&& s.subhead == g.content.editorial.recap.home.subhead
    &&& s.large_src == g.content.editorial.recap.home.photo.cuts.large.src
    &&& s.small_src == g.content.editorial.recap.home.photo.cuts.small.src
}

/// Extracts, from the most recent date of the listing document, each game's
/// display text and photo source locators, in listing order.
pub fn game_sources(schedule: api::Schedule) -> (r: Vec<GameSource>)
    requires
        schedule.dates@.len() > 0,
    ensures
        r@.len() == schedule.dates@.last().games@.len(),
        forall|i: int|
            0 <= i < r@.len() ==> source_of(
                #[trigger] r@[i],
                schedule.dates@.last().games@[i],
            ),
{
    let mut dates = schedule.dates;
    let date = dates.pop().unwrap();
    let mut games = date.games;
    let ghost games0 = games@;
    let mut r: Vec<GameSource> = Vec::new();
    while games.len() > 0
        invariant
            r@.len() + games@.len() == games0.len(),
            games@ == games0.subrange(r@.len() as int, games0.len() as int),
            forall|i: int| 0 <= i < r@.len() ==> source_of(#[trigger] r@[i], games0[i]),
        decreases games@.len(),
    {
        let game = games.remove(0);
        let api::Game {
            content: api::Content {
                editorial: api::Editorial { recap: api::Recap { home } },
            },
        } = game;
        let api::Home { headline, subhead, photo } = home;
        let api::Photos { cuts } = photo;
        let api::Cuts { large, small } = cuts;
        let api::Photo { width: _, height: _, src: large_src } = large;
        let api::Photo { width: _, height: _, src: small_src } = small;
        r.push(GameSource { headline, subhead, large_src, small_src });
    }
    r
}

/// Which photo a window game's poll may touch: on the focused game only the
/// large photo is polled, on a peripheral game only the small one; the other
/// variant's cache is left exactly as it was.
pub open spec fn only_variant_polled(g: Game, g0: Game, focused: bool) -> bool {
    if focused {
        g.small_cached() == g0.small_cached()
    } else {
        g.large_cached() == g0.large_cached()
    }
}

/// How one game may evolve across a poll: display text unchanged, and photo
/// caches that never regress from full back to empty, nor swap their image.
pub open spec fn polled_from(g: Game, g0: Game) -> bool {
    &&& g.spec_headline() == g0.spec_headline()
    &&& g.spec_subhead() == g0.spec_subhead()
    &&& g0.large_cached() is Some ==> g.large_cached() == g0.large_cached()
    &&& g0.small_cached() is Some ==> g.small_cached() == g0.small_cached()
}

/// What the snippet for one game must be, given whether the game is focused
/// and given the two fallback images.
pub open spec fn snippet_matches(
    s: Snippet,
    g: Game,
    focused: bool,
    large_default: Image,
    small_default: Image,
) -> bool {
    match s {
        Snippet::Large(image, headline, subhead) => {
            &&& focused
            &&& headline == g.spec_headline()
            &&& subhead == g.spec_subhead()
            &&& image@ == (match g.large_cached() {
                Some(v) => v,
                None => large_default@,
            })
        },
        Snippet::Small(image) => {
            &&& !focused
            &&& image@ == (match g.small_cached() {
                Some(v) => v,
                None => small_default@,
            })
        },
    }
}

/// The number of focused snippets in a sequence.
pub open spec fn count_focused(s: Seq<Snippet>) -> int
    decreases s.len(),
{
    if s.len() == 0 {
        0
    } else {
        count_focused(s.drop_last()) + if s.last() is Large {
            1int
        } else {
            0int
        }
    }
}

/// The visible window brackets the cursor: its start is the largest multiple
/// of the page size below the cursor.
proof fn lemma_window_brackets_cursor(c: int)
    requires
        0 <= c,
    ensures
        (c / (PAGE_SIZE as int)) * (PAGE_SIZE as int) <= c,
        c < (c / (PAGE_SIZE as int)) * (PAGE_SIZE as int) + PAGE_SIZE,
        c % (PAGE_SIZE as int) == c - (c / (PAGE_SIZE as int)) * (PAGE_SIZE as int),
{
    vstd::arithmetic::div_mod::lemma_fundamental_div_mod(c, PAGE_SIZE as int);
    vstd::arithmetic::div_mod::lemma_mod_bound(c, PAGE_SIZE as int);
}

/// A sequence with no focused snippet counts zero of them.
proof fn lemma_count_focused_none(s: Seq<Snippet>)
    requires
        forall|k: int| 0 <= k < s.len() ==> !((#[trigger] s[k]) is Large),
    ensures
        count_focused(s) == 0,
    decreases s.len(),
{
    if s.len() > 0 {
        lemma_count_focused_none(s.drop_last());
    }
}

/// A sequence whose one and only focused snippet sits at index `f` counts
/// exactly one of them.
proof fn lemma_count_focused_single(s: Seq<Snippet>, f: int)
    requires
        0 <= f < s.len(),
        forall|k: int| 0 <= k < s.len() ==> ((#[trigger] s[k]) is Large <==> k == f),
    ensures
        count_focused(s) == 1,
    decreases s.len(),
{
    if f == s.len() - 1 {
        lemma_count_focused_none(s.drop_last());
    } else {
        lemma_count_focused_single(s.drop_last(), f);
    }
}

} // verus!

