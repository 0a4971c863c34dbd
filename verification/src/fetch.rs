//! The order in which a game's PGN is looked for: the callback endpoint,
//! the players' monthly archives, the callback endpoint once more, and the
//! game page. Each step takes the reply to the last request and says what
//! to request next, or what the outcome is.
use vstd::prelude::*;
use vstd::string::StrSliceExecFns;
use crate::chesscom::{
    ArchiveLookup, ChessGameRef, archive_lookup, extract_archive_lookup, game_url_matches_id,
    month_after, month_before, month_candidates, strings_view, url_names_game,
};
use crate::error::C2lError;
use crate::json::{JsonValue, get, get_value, json_parse, parse_json, as_str, value_as_str};
use crate::pgn_extract::{
    cleaned_pgn, cleanup_pgn, extract_pgn_from_body, extract_pgn_from_jsonish, looks_like_pgn,
    looks_like_pgn_spec, pgn_in_body, pgn_in_json_text,
};
use crate::text::{decimal, push_char, push_decimal};

verus! {

broadcast use vstd::string::group_string_axioms;

/// The reply to a GET request: whether it was sent and answered, its
/// status, and its body (`None` when it could not be read).
pub struct HttpReply {
    pub sent: bool,
    pub status: u16,
    pub body: Option<String>,
}

/// What to do next.
pub enum FetchAction {
    /// Request this URL and hand the reply to `step`.
    Get(String),
    /// The search is over.
    Done(Result<String, C2lError>),
}

/// Where the search stands.
pub enum FetchStage {
    /// Waiting for the first callback reply.
    Callback,
    /// Waiting for the archive of `usernames[user]` for candidate month
    /// `candidate` (the game's month, the month before, the month after).
    Archive { lookup: ArchiveLookup, user: usize, candidate: usize },
    /// Waiting for the second callback reply.
    CallbackAgain,
    /// Waiting for the game page.
    Page,
    /// Done.
    Finished,
}

/// The search for one game's PGN.
pub struct PgnFetch {
    game_id: String,
    page_url: String,
    stage: FetchStage,
}

// ---------------------------------------------------------------------
// The model
// ---------------------------------------------------------------------

pub enum StageView {
    Callback,
    Archive { usernames: Seq<Seq<char>>, year: i32, month: u32, user: int, candidate: int },
    CallbackAgain,
    Page,
    Finished,
}

pub enum ActionView {
    Get(Seq<char>),
    Found(Seq<char>),
    Failed,
}

pub struct ReplyView {
    pub sent: bool,
    pub status: u16,
    pub body: Option<Seq<char>>,
}

impl View for HttpReply {
    type V = ReplyView;

    open spec fn view(&self) -> ReplyView {
        ReplyView {
            sent: self.sent,
            status: self.status,
            body: match self.body {
                Some(b) => Some(b@),
                None => None,
            },
        }
    }
}

impl View for FetchStage {
    type V = StageView;

    open spec fn view(&self) -> StageView {
        match self {
            FetchStage::Callback => StageView::Callback,
            FetchStage::Archive { lookup, user, candidate } => StageView::Archive {
                usernames: strings_view(lookup.usernames@),
                year: lookup.year,
                month: lookup.month,
                user: *user as int,
                candidate: *candidate as int,
            },
            FetchStage::CallbackAgain => StageView::CallbackAgain,
            FetchStage::Page => StageView::Page,
            FetchStage::Finished => StageView::Finished,
        }
    }
}

/// The error every unsuccessful search ends with.
pub open spec fn fetch_failure_reason() -> Seq<char> {
    "Failed to retrieve PGN. callback/page/public archive all failed."@
}

impl View for FetchAction {
    type V = ActionView;

    open spec fn view(&self) -> ActionView {
        match self {
            FetchAction::Get(u) => ActionView::Get(u@),
            FetchAction::Done(Ok(p)) => ActionView::Found(p@),
            FetchAction::Done(Err(_)) => ActionView::Failed,
        }
    }
}

/// The callback endpoint of a game.
pub open spec fn callback_url(game_id: Seq<char>) -> Seq<char> {
    "https://www.chess.com/callback/live/game/"@ + game_id
}

/// An `i32` as `Display` prints it.
pub open spec fn signed_decimal(n: int) -> Seq<char> {
    if n < 0 {
        seq!['-'] + decimal((-n) as nat)
    } else {
        decimal(n as nat)
    }
}

/// A month number padded to two digits (`{:02}`).
pub open spec fn two_digits(m: nat) -> Seq<char> {
    if m < 10 {
        seq!['0'] + decimal(m)
    } else {
        decimal(m)
    }
}

/// The public archive of a player for a month.
pub open spec fn archive_url(username: Seq<char>, year: int, month: int) -> Seq<char> {
    "https://api.chess.com/pub/player/"@ + username + "/games/"@ + signed_decimal(year) + "/"@
        + two_digits(month as nat)
}

/// An archive URL ends with the month written with exactly two decimal
/// digits, after the player's name and the year.
pub proof fn lemma_archive_url_month_has_two_digits(username: Seq<char>, year: int, month: int)
    requires
        1 <= month <= 12,
    ensures
        ({
            let a = archive_url(username, year, month);
            let n = a.len() as int;
            &&& n >= 2
            &&& a.subrange(0, n - 2) == "https://api.chess.com/pub/player/"@ + username + "/games/"@
                + signed_decimal(year) + "/"@
            &&& '0' <= a[n - 2] <= '9'
            &&& '0' <= a[n - 1] <= '9'
            &&& ((a[n - 2] as int) - ('0' as int)) * 10 + ((a[n - 1] as int) - ('0' as int)) == month
        }),
{
    let p = "https://api.chess.com/pub/player/"@ + username + "/games/"@ + signed_decimal(year) + "/"@;
    let d = two_digits(month as nat);
    let a = archive_url(username, year, month);
    if month < 10 {
        assert(d == seq!['0', crate::text::digit_char(month as nat)]);
    } else {
        assert(decimal((month / 10) as nat) == seq!['1']);
        assert(d == seq!['1', crate::text::digit_char((month % 10) as nat)]);
    }
    assert(d.len() == 2);
    assert(a == p + d);
    assert(a.subrange(0, a.len() - 2) =~= p);
    assert(a[a.len() - 2] == d[0]);
    assert(a[a.len() - 1] == d[1]);
}

/// Candidate month `k` around `(year, month)`.
pub open spec fn candidate_month(year: int, month: int, k: int) -> (int, int) {
    if k == 0 {
        (year, month)
    } else if k == 1 {
        month_before(year, month)
    } else {
        month_after(year, month)
    }
}

/// The body of a callback reply that was answered and not refused.
pub open spec fn callback_body(r: ReplyView) -> Option<Seq<char>> {
    if r.sent && r.status != 401 && r.status != 403 {
        r.body
    } else {
        None
    }
}

/// What a month's archive says of the game.
pub enum ArchiveOutcome {
    /// The request or its reading failed: the archive search ends.
    Failed,
    /// No usable PGN for the game in this month.
    NotFound,
    /// The game's PGN, tidied.
    Found(Seq<char>),
}

/// The PGN of the first listed game that names the game and has a
/// non-empty tidied PGN.
pub open spec fn game_in_list(games: Seq<JsonValue>, game_id: Seq<char>) -> Option<Seq<char>>
    decreases games.len(),
{
    if games.len() == 0 {
        None
    } else {
        let g = games[0];
        let url = match as_str(get(g, "url"@)) {
            Some(u) => u,
            None => seq![],
        };
        if url_names_game(url, game_id) && (as_str(get(g, "pgn"@)) matches Some(p)
            && cleaned_pgn(p).len() > 0) {
            Some(cleaned_pgn(as_str(get(g, "pgn"@)).unwrap()))
        } else {
            game_in_list(games.drop_first(), game_id)
        }
    }
}

pub open spec fn archive_outcome(r: ReplyView, game_id: Seq<char>) -> ArchiveOutcome {
    if !r.sent {
        ArchiveOutcome::Failed
    } else if 400 <= r.status <= 599 {
        ArchiveOutcome::NotFound
    } else {
        match r.body {
            None => ArchiveOutcome::Failed,
            Some(b) => match json_parse(b) {
                None => ArchiveOutcome::Failed,
                Some(doc) => match get(doc, "games"@) {
                    Some(JsonValue::Array(games)) => match game_in_list(games@, game_id) {
                        Some(p) => ArchiveOutcome::Found(p),
                        None => ArchiveOutcome::NotFound,
                    },
                    _ => ArchiveOutcome::NotFound,
                },
            },
        }
    }
}

/// A PGN tidied, kept only when it looks like a PGN.
pub open spec fn usable(p: Option<Seq<char>>) -> Option<Seq<char>> {
    match p {
        Some(x) => if looks_like_pgn_spec(cleaned_pgn(x)) {
            Some(cleaned_pgn(x))
        } else {
            None
        },
        None => None,
    }
}

/// Requesting the archive of a username for a candidate month.
pub open spec fn archive_request(usernames: Seq<Seq<char>>, year: i32, month: u32, user: int, candidate: int) -> (StageView, ActionView) {
    let (y, m) = candidate_month(year as int, month as int, candidate);
    (
        StageView::Archive { usernames, year, month, user, candidate },
        ActionView::Get(archive_url(usernames[user], y, m)),
    )
}

/// What happens after each reply.
pub open spec fn next_step(stage: StageView, game_id: Seq<char>, page_url: Seq<char>, r: ReplyView) -> (StageView, ActionView) {
    let again = (StageView::CallbackAgain, ActionView::Get(callback_url(game_id)));
    let page = (StageView::Page, ActionView::Get(page_url));
    match stage {
        StageView::Callback => match callback_body(r) {
            Some(body) => match usable(pgn_in_body(body)) {
                Some(p) => (StageView::Finished, ActionView::Found(p)),
                None => match json_parse(body) {
                    Some(doc) => match archive_lookup(doc) {
                        Some((names, y, m)) => archive_request(names, y, m, 0, 0),
                        None => again,
                    },
                    None => again,
                },
            },
            None => again,
        },
        StageView::Archive { usernames, year, month, user, candidate } => match archive_outcome(
            r,
            game_id,
        ) {
            ArchiveOutcome::Found(p) => if looks_like_pgn_spec(p) {
                (StageView::Finished, ActionView::Found(p))
            } else {
                again
            },
            ArchiveOutcome::Failed => again,
            ArchiveOutcome::NotFound => if candidate + 1 < 3 {
                archive_request(usernames, year, month, user, candidate + 1)
            } else if user + 1 < usernames.len() {
                archive_request(usernames, year, month, user + 1, 0)
            } else {
                again
            },
        },
        StageView::CallbackAgain => match callback_body(r) {
            Some(body) => match usable(pgn_in_body(body)) {
                Some(p) => (StageView::Finished, ActionView::Found(p)),
                None => page,
            },
            None => page,
        },
        StageView::Page => match callback_body(r) {
            Some(body) => {
                let found = match pgn_in_json_text(body) {
                    Some(p) => Some(p),
                    None => pgn_in_body(body),
                };
                match usable(found) {
                    Some(p) => (StageView::Finished, ActionView::Found(p)),
                    None => (StageView::Finished, ActionView::Failed),
                }
            },
            None => (StageView::Finished, ActionView::Failed),
        },
        StageView::Finished => (StageView::Finished, ActionView::Failed),
    }
}

/// How many more requests a search can make from a stage on.
pub open spec fn requests_left(stage: StageView) -> int {
    match stage {
        StageView::Callback => 14,
        StageView::Archive { usernames, user, candidate, .. } => 3 * (usernames.len() - user)
            - candidate - 1 + 2,
        StageView::CallbackAgain => 1,
        StageView::Page => 0,
        StageView::Finished => 0,
    }
}


// ---------------------------------------------------------------------
// Building the requests
// ---------------------------------------------------------------------

fn make_callback_url(game_id: &str) -> (res: String)
    ensures
        res@ == callback_url(game_id@),
{
    let mut u = String::new();
    u.append("https://www.chess.com/callback/live/game/");
    u.append(game_id);
    u
}

fn make_archive_url(username: &str, year: i32, month: u32) -> (res: String)
    requires
        year > i32::MIN,
    ensures
        res@ == archive_url(username@, year as int, month as int),
{
    let mut u = String::new();
    u.append("https://api.chess.com/pub/player/");
    u.append(username);
    u.append("/games/");
    if year < 0 {
        push_char(&mut u, '-');
        push_decimal(&mut u, (-year) as u64);
    } else {
        push_decimal(&mut u, year as u64);
    }
    u.append("/");
    if month < 10 {
        push_char(&mut u, '0');
    }
    push_decimal(&mut u, month as u64);
    assert(u@ == archive_url(username@, year as int, month as int));
    u
}

fn request_archive(lookup: &ArchiveLookup, user: usize, candidate: usize) -> (res: String)
    requires
        user < lookup.usernames@.len(),
        candidate < 3,
        0 <= lookup.year <= 9999,
        1 <= lookup.month <= 12,
    ensures
        ({
            let (y, m) = candidate_month(lookup.year as int, lookup.month as int, candidate as int);
            res@ == archive_url(strings_view(lookup.usernames@)[user as int], y, m)
        }),
{
    let months = month_candidates(lookup.year, lookup.month);
    let (y, m) = months[candidate];
    make_archive_url(lookup.usernames[user].as_str(), y, m)
}

// ---------------------------------------------------------------------
// Reading the replies
// ---------------------------------------------------------------------

/// `ArchiveOutcome` as a value.
pub enum ArchiveMonth {
    Failed,
    NotFound,
    Found(String),
}

pub open spec fn archive_month_view(a: ArchiveMonth) -> ArchiveOutcome {
    match a {
        ArchiveMonth::Failed => ArchiveOutcome::Failed,
        ArchiveMonth::NotFound => ArchiveOutcome::NotFound,
        ArchiveMonth::Found(p) => ArchiveOutcome::Found(p@),
    }
}

fn find_game_in_list(games: &Vec<JsonValue>, game_id: &str) -> (res: Option<String>)
    ensures
        match res {
            Some(p) => game_in_list(games@, game_id@) == Some(p@),
            None => game_in_list(games@, game_id@) is None,
        },
{
    let mut i: usize = 0;
    assert(games@.skip(0) == games@);
    while i < games.len()
        invariant
            i <= games.len(),
            game_in_list(games@, game_id@) == game_in_list(games@.skip(i as int), game_id@),
        decreases games.len() - i,
    {
        assert(games@.skip(i as int)[0] == games@[i as int]);
        assert(games@.skip(i as int).drop_first() == games@.skip(i + 1));
        let game = &games[i];
        let url: &str = match value_as_str(get_value(game, "url")) {
            Some(u) => u,
            None => "",
        };
        proof {
            reveal_strlit("");
        }
        assert(url@ == match as_str(get(games@[i as int], "url"@)) {
            Some(u) => u,
            None => seq![],
        });
        if game_url_matches_id(url, game_id) {
            match value_as_str(get_value(game, "pgn")) {
                Some(p) => {
                    let cleaned = cleanup_pgn(p.to_string());
                    if cleaned.as_str().unicode_len() > 0 {
                        return Some(cleaned);
                    }
                },
                None => {},
            }
        }
        i = i + 1;
    }
    None
}

pub fn archive_month_result(reply: &HttpReply, game_id: &str) -> (res: ArchiveMonth)
    ensures
        archive_month_view(res) == archive_outcome(reply@, game_id@),
{
    if !reply.sent {
        return ArchiveMonth::Failed;
    }
    if 400 <= reply.status && reply.status <= 599 {
        return ArchiveMonth::NotFound;
    }
    let body = match &reply.body {
        Some(b) => b,
        None => {
            return ArchiveMonth::Failed;
        },
    };
    let doc = match parse_json(body.as_str()) {
        Some(d) => d,
        None => {
            return ArchiveMonth::Failed;
        },
    };
    match get_value(&doc, "games") {
        Some(JsonValue::Array(games)) => match find_game_in_list(games, game_id) {
            Some(p) => ArchiveMonth::Found(p),
            None => ArchiveMonth::NotFound,
        },
        _ => ArchiveMonth::NotFound,
    }
}

fn reply_body(reply: &HttpReply) -> (res: Option<&String>)
    ensures
        match res {
            Some(b) => callback_body(reply@) == Some(b@),
            None => callback_body(reply@) is None,
        },
{
    if reply.sent && reply.status != 401 && reply.status != 403 {
        match &reply.body {
            Some(b) => Some(b),
            None => None,
        }
    } else {
        None
    }
}

fn usable_pgn(found: Option<String>) -> (res: Option<String>)
    ensures
        match res {
            Some(p) => usable(match found {
                Some(x) => Some(x@),
                None => None,
            }) == Some(p@),
            None => usable(match found {
                Some(x) => Some(x@),
                None => None,
            }) is None,
        },
{
    match found {
        Some(x) => {
            let cleaned = cleanup_pgn(x);
            if looks_like_pgn(cleaned.as_str()) {
                Some(cleaned)
            } else {
                None
            }
        },
        None => None,
    }
}

// ---------------------------------------------------------------------
// The search
// ---------------------------------------------------------------------

impl PgnFetch {
    pub closed spec fn stage_view(self) -> StageView {
        self.stage@
    }

    pub closed spec fn game(self) -> Seq<char> {
        self.game_id@
    }

    pub closed spec fn page(self) -> Seq<char> {
        self.page_url@
    }

    /// An archive stage points at an existing username and candidate.
    pub closed spec fn wf(self) -> bool {
        stage_wf(self.stage@)
    }

    /// Starts the search for a game's PGN with a request for its callback
    /// endpoint.
    pub fn start(game: &ChessGameRef) -> (res: (PgnFetch, FetchAction))
        ensures
            res.0.wf(),
            res.0.stage_view() == StageView::Callback,
            res.0.game() == game.game_id@,
            res.0.page() == game.source_url.serialized@,
            res.1@ == ActionView::Get(callback_url(game.game_id@)),
    {
        let fetch = PgnFetch {
            game_id: game.game_id.clone(),
            page_url: game.source_url.serialized.clone(),
            stage: FetchStage::Callback,
        };
        let action = FetchAction::Get(make_callback_url(game.game_id.as_str()));
        (fetch, action)
    }

    fn failure() -> (res: FetchAction)
        ensures
            res@ == ActionView::Failed,
            res matches FetchAction::Done(Err(e)) && e matches C2lError::PgnUnavailable(m) && m@
                == fetch_failure_reason(),
    {
        FetchAction::Done(
            Err(C2lError::PgnUnavailable("Failed to retrieve PGN. callback/page/public archive all failed.".to_string())),
        )
    }

    fn ask_callback_again(&mut self) -> (res: FetchAction)
        ensures
            final(self).stage_view() == StageView::CallbackAgain,
            final(self).game() == old(self).game(),
            final(self).page() == old(self).page(),
            res@ == ActionView::Get(callback_url(old(self).game())),
    {
        self.stage = FetchStage::CallbackAgain;
        FetchAction::Get(make_callback_url(self.game_id.as_str()))
    }

    /// Takes the reply to the last request and says what comes next.
    pub fn step(&mut self, reply: HttpReply) -> (res: FetchAction)
        requires
            old(self).wf(),
        ensures
            final(self).wf(),
            final(self).game() == old(self).game(),
            final(self).page() == old(self).page(),
            (final(self).stage_view(), res@) == next_step(
                old(self).stage_view(),
                old(self).game(),
                old(self).page(),
                reply@,
            ),
            res matches FetchAction::Done(Err(e)) ==> e matches C2lError::PgnUnavailable(m) && m@
                == fetch_failure_reason(),
    {
        let mut stage = FetchStage::Finished;
        std::mem::swap(&mut stage, &mut self.stage);
        match stage {
            FetchStage::Callback => {
                match reply_body(&reply) {
                    Some(body) => {
                        match usable_pgn(extract_pgn_from_body(body.as_str())) {
                            Some(p) => {
                                return FetchAction::Done(Ok(p));
                            },
                            None => {},
                        }
                        match parse_json(body.as_str()) {
                            Some(doc) => match extract_archive_lookup(&doc) {
                                Some(lookup) => {
                                    let url = request_archive(&lookup, 0, 0);
                                    self.stage = FetchStage::Archive { lookup, user: 0, candidate: 0 };
                                    return FetchAction::Get(url);
                                },
                                None => {},
                            },
                            None => {},
                        }
                        self.ask_callback_again()
                    },
                    None => self.ask_callback_again(),
                }
            },
            FetchStage::Archive { lookup, user, candidate } => {
                match archive_month_result(&reply, self.game_id.as_str()) {
                    ArchiveMonth::Found(p) => {
                        if looks_like_pgn(p.as_str()) {
                            FetchAction::Done(Ok(p))
                        } else {
                            self.ask_callback_again()
                        }
                    },
                    ArchiveMonth::Failed => self.ask_callback_again(),
                    ArchiveMonth::NotFound => {
                        if candidate + 1 < 3 {
                            let url = request_archive(&lookup, user, candidate + 1);
                            self.stage = FetchStage::Archive { lookup, user, candidate: candidate + 1 };
                            FetchAction::Get(url)
                        } else if user + 1 < lookup.usernames.len() {
                            let url = request_archive(&lookup, user + 1, 0);
                            self.stage = FetchStage::Archive { lookup, user: user + 1, candidate: 0 };
                            FetchAction::Get(url)
                        } else {
                            self.ask_callback_again()
                        }
                    },
                }
            },
            FetchStage::CallbackAgain => {
                let found = match reply_body(&reply) {
                    Some(body) => usable_pgn(extract_pgn_from_body(body.as_str())),
                    None => None,
                };
                match found {
                    Some(p) => FetchAction::Done(Ok(p)),
                    None => {
                        self.stage = FetchStage::Page;
                        FetchAction::Get(self.page_url.clone())
                    },
                }
            },
            FetchStage::Page => {
                match reply_body(&reply) {
                    Some(body) => {
                        let found = match extract_pgn_from_jsonish(body.as_str()) {
                            Some(p) => Some(p),
                            None => extract_pgn_from_body(body.as_str()),
                        };
                        match usable_pgn(found) {
                            Some(p) => FetchAction::Done(Ok(p)),
                            None => Self::failure(),
                        }
                    },
                    None => Self::failure(),
                }
            },
            FetchStage::Finished => Self::failure(),
        }
    }
}

/// An archive stage points at an existing username and candidate month
/// of a real date.
pub open spec fn stage_wf(stage: StageView) -> bool {
    match stage {
        StageView::Archive { usernames, year, month, user, candidate } => {
            &&& 1 <= usernames.len() <= 4
            &&& 0 <= user < usernames.len()
            &&& 0 <= candidate < 3
            &&& 0 <= year <= 9999
            &&& 1 <= month <= 12
        },
        _ => true,
    }
}


/// A search only ever ends with a PGN that looks like one: it has the
/// Event, White, Black and Result tags and a first move.
pub proof fn lemma_found_pgn_looks_like_pgn(stage: StageView, game_id: Seq<char>, page_url: Seq<char>, r: ReplyView)
    ensures
        next_step(stage, game_id, page_url, r).1 matches ActionView::Found(p) ==> looks_like_pgn_spec(p),
{
}

proof fn lemma_listed_pgn_is_tidy(games: Seq<JsonValue>, game_id: Seq<char>)
    ensures
        game_in_list(games, game_id) matches Some(p) ==> cleaned_pgn(p) == p,
    decreases games.len(),
{
    if games.len() > 0 {
        let g = games[0];
        match as_str(get(g, "pgn"@)) {
            Some(x) => crate::tidy::lemma_cleanup_idempotent(x),
            None => {},
        }
        lemma_listed_pgn_is_tidy(games.drop_first(), game_id);
    }
}

/// A search only ever ends with a PGN that is already tidy: tidying it
/// again changes nothing.
pub proof fn lemma_found_pgn_is_tidy(stage: StageView, game_id: Seq<char>, page_url: Seq<char>, r: ReplyView)
    ensures
        next_step(stage, game_id, page_url, r).1 matches ActionView::Found(p) ==> cleaned_pgn(p) == p,
{
    match stage {
        StageView::Archive { .. } => {
            match r.body {
                Some(b) => match json_parse(b) {
                    Some(doc) => match get(doc, "games"@) {
                        Some(JsonValue::Array(games)) => lemma_listed_pgn_is_tidy(games@, game_id),
                        _ => {},
                    },
                    None => {},
                },
                None => {},
            }
        },
        _ => {
            match callback_body(r) {
                Some(body) => {
                    match pgn_in_body(body) {
                        Some(x) => crate::tidy::lemma_cleanup_idempotent(x),
                        None => {},
                    }
                    match pgn_in_json_text(body) {
                        Some(x) => crate::tidy::lemma_cleanup_idempotent(x),
                        None => {},
                    }
                },
                None => {},
            }
        },
    }
}

/// The archive lookup names at most four players.
pub proof fn lemma_lookup_names_at_most_four(doc: JsonValue)
    ensures
        archive_lookup(doc) matches Some((names, y, m)) ==> 1 <= names.len() <= 4 && 0 <= y <= 9999
            && 1 <= m <= 12,
{
    let v = doc;
    let n0: Seq<Seq<char>> = seq![];
    let n1 = crate::chesscom::with_unique(n0, crate::chesscom::str_at(v, "players"@, "top"@, "username"@));
    let n2 = crate::chesscom::with_unique(n1, crate::chesscom::str_at(v, "players"@, "bottom"@, "username"@));
    let n3 = crate::chesscom::with_unique(n2, crate::chesscom::str_at(v, "game"@, "pgnHeaders"@, "White"@));
    let n4 = crate::chesscom::with_unique(n3, crate::chesscom::str_at(v, "game"@, "pgnHeaders"@, "Black"@));
    assert(n1.len() <= 1);
    assert(n2.len() <= 2);
    assert(n3.len() <= 3);
    assert(n4.len() <= 4);
    assert(n4 == crate::chesscom::lookup_usernames(v));
    match crate::chesscom::str_at(v, "game"@, "pgnHeaders"@, "Date"@) {
        Some(date) => {
            crate::chesscom::lemma_year_month_range(date);
        },
        None => {},
    }
}

/// Each request brings a search closer to its end: a well-formed stage
/// leads to a well-formed stage, and when the next action is a request,
/// fewer requests are left than before. A search thus makes at most
/// fifteen requests.
pub proof fn lemma_requests_left_decrease(stage: StageView, game_id: Seq<char>, page_url: Seq<char>, r: ReplyView)
    requires
        stage_wf(stage),
    ensures
        stage_wf(next_step(stage, game_id, page_url, r).0),
        0 <= requests_left(stage) <= 14,
        next_step(stage, game_id, page_url, r).1 is Get ==> 0 <= requests_left(
            next_step(stage, game_id, page_url, r).0,
        ) < requests_left(stage),
{
    match stage {
        StageView::Callback => {
            match callback_body(r) {
                Some(body) => match json_parse(body) {
                    Some(doc) => {
                        lemma_lookup_names_at_most_four(doc);
                    },
                    None => {},
                },
                None => {},
            }
        },
        _ => {},
    }
}

} // verus!
