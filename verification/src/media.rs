//! The now-playing watcher: it announces the artist and the title of the
//! track that is playing, each on its own whenever it changes.
//!
//! The track is asked of the system's now-playing record first. The first
//! time that record is missing or lacks a field the watcher turns to a
//! script that asks the media players themselves, and it stays with the
//! script from then on. There is no way back: one gap in the record costs the
//! cheaper strategy for the rest of the run, even if the record is whole
//! again a moment later.

use vstd::prelude::*;
use vstd::utf8::encode_utf8;
use crate::channel::{deliver, Delivery};
use crate::connection::ConnectionWatch;
use crate::frame::{length_prefixed, DataKind, Frame};
use crate::text::{pair_of, split_at_bar, split_pair, text_of, trim, trimmed};
use crate::transliterate::{transliterate_text, transliterated};

verus! {

/// How long the watcher waits between two ticks, in milliseconds.
pub const MEDIA_POLL_MILLIS: u64 = 2000;

/// How much longer it waits after the script has failed, so as not to
/// hammer the scripting host.
pub const FALLBACK_RETRY_MILLIS: u64 = 2000;

/// The script that asks the media players, in order, for the track that is
/// playing. It answers `artist|title`, or nothing if no player is running.
pub const NOW_PLAYING_SCRIPT: &'static str =
    "\n        tell application \"Spotify\"\n            if it is running then\n                set artist_name to artist of current track\n                set track_name to name of current track\n                return artist_name & \"|\" & track_name\n            end if\n        end tell\n\n        tell application \"Music\"\n            if it is running then\n                set artist_name to artist of current track\n                set track_name to name of current track\n                return artist_name & \"|\" & track_name\n            end if\n        end tell\n\n        return \"\"\n    ";

/// What a run of the script yielded: its output without the white space
/// around it, provided the run succeeded and that output is not empty.
pub open spec fn script_yield(succeeded: bool, stdout: Seq<char>) -> Option<Seq<char>> {
    if succeeded && trimmed(stdout).len() > 0 {
        Some(trimmed(stdout))
    } else {
        None
    }
}

/// Reads the outcome of a run of the script: whether it exited well, and
/// what it wrote.
pub fn script_output(succeeded: bool, stdout: &str) -> (output: Option<String>)
    ensures
        text_of(output) == script_yield(succeeded, stdout@),
{
    if !succeeded {
        return None;
    }
    let result = trim(stdout);
    if result.as_str().is_empty() {
        None
    } else {
        Some(result)
    }
}

/// The artist and title in what the script yielded.
pub open spec fn script_pair(output: Option<Seq<char>>) -> Option<(Seq<char>, Seq<char>)> {
    match output {
        Some(text) => split_pair(text),
        None => None,
    }
}

/// The artist and the title that the script reported: the two sides of the
/// one `|` in its output. No output, or output of another shape, gives `None`.
pub fn get_now_playing_via_applescript(output: Option<String>) -> (track: Option<(String, String)>)
    ensures
        pair_of(track) == script_pair(text_of(output)),
{
    match output {
        Some(result) => split_at_bar(result.as_str()),
        None => None,
    }
}

/// The wire bytes of a text frame.
pub open spec fn text_wire(kind: DataKind, text: Seq<char>) -> Seq<u8> {
    seq![kind.tag_of()] + length_prefixed(encode_utf8(text))
}

/// Offers `value` to the queue as a text frame of the given kind, which is
/// one of the kinds that carry text.
pub fn send_data(data_type: DataKind, value: &str, data_sender: &tokio::sync::mpsc::Sender<Vec<u8>>) -> (sent:
    Delivery)
    requires
        data_type.carries_text(),
    ensures
        sent.frame.kind == data_type,
        sent.frame.wire() == text_wire(data_type, value@),
        sent.frame.well_formed(),
{
    deliver(data_sender, Frame::text(data_type, value))
}

/// Whether a field has news: it is there and differs from what was
/// announced last.
pub open spec fn field_changed(value: Option<Seq<char>>, last: Seq<char>) -> bool {
    value is Some && value->0 != last
}

/// What counts as announced for a field after it has been compared.
pub open spec fn field_next(value: Option<Seq<char>>, last: Seq<char>) -> Seq<char> {
    if field_changed(value, last) {
        value->0
    } else {
        last
    }
}

/// The frames, as wire bytes, that an artist and a title give rise to: one
/// for each field that has news, the artist's first.
pub open spec fn media_wires(
    artist: Option<Seq<char>>,
    title: Option<Seq<char>>,
    last_artist: Seq<char>,
    last_title: Seq<char>,
) -> Seq<Seq<u8>> {
    let for_artist = if field_changed(artist, last_artist) {
        seq![text_wire(DataKind::MediaArtist, artist->0)]
    } else {
        Seq::empty()
    };
    let for_title = if field_changed(title, last_title) {
        seq![text_wire(DataKind::MediaTitle, title->0)]
    } else {
        Seq::empty()
    };
    for_artist + for_title
}

/// The wire bytes of the frames that were offered.
pub open spec fn wires_of(deliveries: Seq<Delivery>) -> Seq<Seq<u8>> {
    deliveries.map_values(|d: Delivery| d.frame.wire())
}

/// Compares one normalised field with what was announced last; if it has
/// news, announces it and remembers it.
pub fn send_field(
    kind: DataKind,
    value: Option<String>,
    data_sender: &tokio::sync::mpsc::Sender<Vec<u8>>,
    last: &mut String,
    deliveries: &mut Vec<Delivery>,
)
    requires
        kind.carries_text(),
    ensures
        final(last)@ == field_next(text_of(value), old(last)@),
        wires_of(final(deliveries)@) == wires_of(old(deliveries)@) + (if field_changed(
            text_of(value),
            old(last)@,
        ) {
            seq![text_wire(kind, value->0@)]
        } else {
            Seq::empty()
        }),
{
    let ghost before = wires_of(deliveries@);
    match value {
        Some(text) => {
            if text != *last {
                let sent = send_data(kind, text.as_str(), data_sender);
                deliveries.push(sent);
                *last = text;
                assert(wires_of(deliveries@) =~= before + seq![text_wire(kind, text@)]);
            } else {
                assert(wires_of(deliveries@) =~= before + Seq::<Seq<u8>>::empty());
            }
        },
        None => {
            assert(wires_of(deliveries@) =~= before + Seq::<Seq<u8>>::empty());
        },
    }
}

/// The normalised form of an optional text.
pub open spec fn normalised(value: Option<Seq<char>>) -> Option<Seq<char>> {
    match value {
        Some(text) => Some(transliterated(text)),
        None => None,
    }
}

/// Normalises an artist and a title and announces each one that has news:
/// the artist first, then the title, each judged on its own against what
/// was announced last for it.
pub fn send_media_data(
    artist: &Option<String>,
    title: &Option<String>,
    data_sender: &tokio::sync::mpsc::Sender<Vec<u8>>,
    last_artist: &mut String,
    last_title: &mut String,
) -> (deliveries: Vec<Delivery>)
    ensures
        wires_of(deliveries@) == media_wires(
            normalised(text_of(*artist)),
            normalised(text_of(*title)),
            old(last_artist)@,
            old(last_title)@,
        ),
        final(last_artist)@ == field_next(normalised(text_of(*artist)), old(last_artist)@),
        final(last_title)@ == field_next(normalised(text_of(*title)), old(last_title)@),
{
    let mut deliveries: Vec<Delivery> = Vec::new();
    assert(wires_of(deliveries@) =~= Seq::<Seq<u8>>::empty());
    let artist_transliterated = match artist {
        Some(new_artist) => Some(transliterate_text(new_artist.as_str())),
        None => None,
    };
    send_field(
        DataKind::MediaArtist,
        artist_transliterated,
        data_sender,
        last_artist,
        &mut deliveries,
    );
    let title_transliterated = match title {
        Some(new_title) => Some(transliterate_text(new_title.as_str())),
        None => None,
    };
    send_field(DataKind::MediaTitle, title_transliterated, data_sender, last_title, &mut deliveries);
    deliveries
}

/// The two ways of asking for the track that is playing.
#[derive(Clone, Copy, Debug, PartialEq, Eq, Structural)]
pub enum Strategy {
    /// The system's now-playing record.
    Primary,
    /// The script that asks the media players.
    Fallback,
}

/// The system's now-playing record, as far as this watcher reads it. A field
/// is `None` if the record lacks it or holds something that is not text.
#[derive(Debug)]
pub struct NowPlaying {
    pub artist: Option<String>,
    pub title: Option<String>,
}

/// What one of the two strategies came back with.
#[derive(Debug)]
pub enum MediaReading {
    /// The now-playing record, or `None` if the system has none.
    Primary(Option<NowPlaying>),
    /// What the script yielded, or `None` if it failed or yielded nothing.
    Fallback(Option<String>),
}

/// A reading, as characters.
pub enum MediaSighting {
    Primary(Option<(Option<Seq<char>>, Option<Seq<char>>)>),
    Fallback(Option<Seq<char>>),
}

impl View for MediaReading {
    type V = MediaSighting;

    open spec fn view(&self) -> MediaSighting {
        match *self {
            MediaReading::Primary(Some(record)) => MediaSighting::Primary(
                Some((text_of(record.artist), text_of(record.title))),
            ),
            MediaReading::Primary(None) => MediaSighting::Primary(None),
            MediaReading::Fallback(output) => MediaSighting::Fallback(text_of(output)),
        }
    }
}

/// The strategy that a sighting comes from.
pub open spec fn strategy_of(sighting: MediaSighting) -> Strategy {
    match sighting {
        MediaSighting::Primary(_) => Strategy::Primary,
        MediaSighting::Fallback(_) => Strategy::Fallback,
    }
}

/// The strategy in force: the script once the latch is set, the record
/// before.
pub open spec fn strategy_in_force(fallback_active: bool) -> Strategy {
    if fallback_active {
        Strategy::Fallback
    } else {
        Strategy::Primary
    }
}

/// The artist and title in a sighting, if it holds both.
pub open spec fn complete_pair(sighting: MediaSighting) -> Option<(Seq<char>, Seq<char>)> {
    match sighting {
        MediaSighting::Primary(Some((Some(artist), Some(title)))) => Some((artist, title)),
        MediaSighting::Primary(_) => None,
        MediaSighting::Fallback(output) => script_pair(output),
    }
}

/// What one tick of the now-playing watcher came to.
#[derive(Clone, Copy, Debug, PartialEq, Eq, Structural)]
pub enum MediaVerdict {
    /// The provider has been disconnected: it does nothing any more.
    Stopped,
    /// The reading comes from the strategy that is not in force: it is not
    /// looked at.
    OutOfTurn,
    /// The record is missing or lacks a field: the latch is set.
    PrimaryIncomplete,
    /// The script gave no artist and title: the watcher waits a little longer.
    FallbackFailed,
    /// An artist and a title were compared with those announced last.
    Compared,
}

/// What the watcher decides on a tick, from whether it is connected, its
/// latch and what the strategy came back with.
pub open spec fn media_verdict(connected: bool, fallback_active: bool, sighting: MediaSighting) -> MediaVerdict {
    if !connected {
        MediaVerdict::Stopped
    } else if strategy_of(sighting) != strategy_in_force(fallback_active) {
        MediaVerdict::OutOfTurn
    } else if complete_pair(sighting) is Some {
        MediaVerdict::Compared
    } else if fallback_active {
        MediaVerdict::FallbackFailed
    } else {
        MediaVerdict::PrimaryIncomplete
    }
}

/// The latch after a tick: set once the record has come back incomplete,
/// and never reset.
pub open spec fn latch_next(connected: bool, fallback_active: bool, sighting: MediaSighting) -> bool {
    fallback_active || media_verdict(connected, fallback_active, sighting)
        == MediaVerdict::PrimaryIncomplete
}

/// The normalised artist that a tick compares, if it compares.
pub open spec fn compared_artist(connected: bool, fallback_active: bool, sighting: MediaSighting) -> Option<
    Seq<char>,
> {
    if media_verdict(connected, fallback_active, sighting) == MediaVerdict::Compared {
        match complete_pair(sighting) {
            Some((artist, _)) => Some(transliterated(artist)),
            None => None,
        }
    } else {
        None
    }
}

/// The normalised title that a tick compares, if it compares.
pub open spec fn compared_title(connected: bool, fallback_active: bool, sighting: MediaSighting) -> Option<
    Seq<char>,
> {
    if media_verdict(connected, fallback_active, sighting) == MediaVerdict::Compared {
        match complete_pair(sighting) {
            Some((_, title)) => Some(transliterated(title)),
            None => None,
        }
    } else {
        None
    }
}

/// What the now-playing watcher remembers between ticks.
pub struct MediaState {
    last_artist: String,
    last_title: String,
    fallback_active: bool,
}

impl MediaState {
    /// The artist that was announced last, normalised.
    pub closed spec fn artist(&self) -> Seq<char> {
        self.last_artist@
    }

    /// The title that was announced last, normalised.
    pub closed spec fn title(&self) -> Seq<char> {
        self.last_title@
    }

    /// Whether the watcher has turned to the script.
    pub closed spec fn fallback(&self) -> bool {
        self.fallback_active
    }

    /// The state of a watcher that has announced nothing yet and still asks
    /// the system's record.
    pub fn new() -> (state: MediaState)
        ensures
            state.artist() == Seq::<char>::empty(),
            state.title() == Seq::<char>::empty(),
            !state.fallback(),
    {
        MediaState { last_artist: String::new(), last_title: String::new(), fallback_active: false }
    }

    pub fn last_artist(&self) -> (artist: &String)
        ensures
            artist@ == self.artist(),
    {
        &self.last_artist
    }

    pub fn last_title(&self) -> (title: &String)
        ensures
            title@ == self.title(),
    {
        &self.last_title
    }

    pub fn fallback_active(&self) -> (active: bool)
        ensures
            active == self.fallback(),
    {
        self.fallback_active
    }

    /// The strategy to ask on the next tick.
    pub fn strategy(&self) -> (strategy: Strategy)
        ensures
            strategy == strategy_in_force(self.fallback()),
    {
        if self.fallback_active {
            Strategy::Fallback
        } else {
            Strategy::Primary
        }
    }
}

/// What a tick of the now-playing watcher did.
#[derive(Debug)]
pub struct MediaReport {
    pub verdict: MediaVerdict,
    /// The frames that were offered to the queue, in the order they were
    /// offered.
    pub deliveries: Vec<Delivery>,
    /// How long to wait on top of the usual interval before the next tick,
    /// in milliseconds.
    pub retry_delay_millis: u64,
}

/// The now-playing watcher.
pub struct MediaProvider {
    data_sender: tokio::sync::mpsc::Sender<Vec<u8>>,
    connected_sender: tokio::sync::broadcast::Sender<bool>,
}

impl MediaProvider {
    /// The output queue this watcher offers its frames to.
    pub closed spec fn queue(&self) -> tokio::sync::mpsc::Sender<Vec<u8>> {
        self.data_sender
    }

    /// The connection signal this watcher obeys.
    pub closed spec fn signal(&self) -> tokio::sync::broadcast::Sender<bool> {
        self.connected_sender
    }

    pub fn new(
        data_sender: tokio::sync::mpsc::Sender<Vec<u8>>,
        connected_sender: tokio::sync::broadcast::Sender<bool>,
    ) -> (provider: MediaProvider)
        ensures
            provider.queue() == data_sender,
            provider.signal() == connected_sender,
    {
        MediaProvider { data_sender, connected_sender }
    }

    /// The signal to subscribe to before the first tick.
    pub fn connected_sender(&self) -> (sender: &tokio::sync::broadcast::Sender<bool>)
        ensures
            *sender == self.signal(),
    {
        &self.connected_sender
    }

    /// One tick: given what the strategy in force came back with, announces
    /// the artist and the title, each if it has news, or sets the latch if
    /// the record was incomplete, or asks for a longer wait if the script
    /// failed. A reading from the other strategy is not looked at, and a
    /// disconnected provider does nothing.
    pub fn tick(&self, watch: &ConnectionWatch, state: &mut MediaState, reading: MediaReading) -> (report:
        MediaReport)
        ensures
            report.verdict == media_verdict(watch.is_connected(), old(state).fallback(), reading@),
            final(state).fallback() == latch_next(
                watch.is_connected(),
                old(state).fallback(),
                reading@,
            ),
            final(state).artist() == field_next(
                compared_artist(watch.is_connected(), old(state).fallback(), reading@),
                old(state).artist(),
            ),
            final(state).title() == field_next(
                compared_title(watch.is_connected(), old(state).fallback(), reading@),
                old(state).title(),
            ),
            wires_of(report.deliveries@) == media_wires(
                compared_artist(watch.is_connected(), old(state).fallback(), reading@),
                compared_title(watch.is_connected(), old(state).fallback(), reading@),
                old(state).artist(),
                old(state).title(),
            ),
            report.retry_delay_millis == if report.verdict == MediaVerdict::FallbackFailed {
                FALLBACK_RETRY_MILLIS
            } else {
                0
            },
    {
        if !watch.connected() {
            return idle_report(MediaVerdict::Stopped);
        }
        let track = match reading {
            MediaReading::Primary(record) => {
                if state.fallback_active {
                    return idle_report(MediaVerdict::OutOfTurn);
                }
                match record {
                    Some(NowPlaying { artist: Some(artist), title: Some(title) }) => Some(
                        (artist, title),
                    ),
                    _ => None,
                }
            },
            MediaReading::Fallback(output) => {
                if !state.fallback_active {
                    return idle_report(MediaVerdict::OutOfTurn);
                }
                get_now_playing_via_applescript(output)
            },
        };
        match track {
            Some((artist, title)) => {
                let deliveries = send_media_data(
                    &Some(artist),
                    &Some(title),
                    &self.data_sender,
                    &mut state.last_artist,
                    &mut state.last_title,
                );
                MediaReport { verdict: MediaVerdict::Compared, deliveries, retry_delay_millis: 0 }
            },
            None => {
                if state.fallback_active {
                    let mut report = idle_report(MediaVerdict::FallbackFailed);
                    report.retry_delay_millis = FALLBACK_RETRY_MILLIS;
                    report
                } else {
                    state.fallback_active = true;
                    idle_report(MediaVerdict::PrimaryIncomplete)
                }
            },
        }
    }
}

/// The report of a tick that offered nothing.
fn idle_report(verdict: MediaVerdict) -> (report: MediaReport)
    ensures
        report.verdict == verdict,
        report.deliveries@.len() == 0,
        report.retry_delay_millis == 0,
{
    MediaReport { verdict, deliveries: Vec::new(), retry_delay_millis: 0 }
}

/// The latch of a connected watcher after it has seen each of `sightings`
/// in turn.
pub open spec fn latch_after(fallback_active: bool, sightings: Seq<MediaSighting>) -> bool
    decreases sightings.len(),
{
    if sightings.len() == 0 {
        fallback_active
    } else {
        latch_next(true, latch_after(fallback_active, sightings.drop_last()), sightings.last())
    }
}

/// A title that has news beside an artist that has none gives exactly one
/// frame, the title's; the artist is not announced again.
pub proof fn media_title_alone(
    artist: Seq<char>,
    title: Seq<char>,
    last_artist: Seq<char>,
    last_title: Seq<char>,
)
    requires
        artist == last_artist,
        title != last_title,
    ensures
        media_wires(Some(artist), Some(title), last_artist, last_title) == seq![
            text_wire(DataKind::MediaTitle, title),
        ],
        field_next(Some(artist), last_artist) == last_artist,
        field_next(Some(title), last_title) == title,
{
    assert(media_wires(Some(artist), Some(title), last_artist, last_title) =~= seq![
        text_wire(DataKind::MediaTitle, title),
    ]);
}

/// An artist that has news beside a title that has none gives exactly one
/// frame, the artist's.
pub proof fn media_artist_alone(
    artist: Seq<char>,
    title: Seq<char>,
    last_artist: Seq<char>,
    last_title: Seq<char>,
)
    requires
        artist != last_artist,
        title == last_title,
    ensures
        media_wires(Some(artist), Some(title), last_artist, last_title) == seq![
            text_wire(DataKind::MediaArtist, artist),
        ],
{
    assert(media_wires(Some(artist), Some(title), last_artist, last_title) =~= seq![
        text_wire(DataKind::MediaArtist, artist),
    ]);
}

/// When both fields have news they give two frames, the artist's first.
pub proof fn media_both_change(
    artist: Seq<char>,
    title: Seq<char>,
    last_artist: Seq<char>,
    last_title: Seq<char>,
)
    requires
        artist != last_artist,
        title != last_title,
    ensures
        media_wires(Some(artist), Some(title), last_artist, last_title) == seq![
            text_wire(DataKind::MediaArtist, artist),
            text_wire(DataKind::MediaTitle, title),
        ],
{
    assert(media_wires(Some(artist), Some(title), last_artist, last_title) =~= seq![
        text_wire(DataKind::MediaArtist, artist),
        text_wire(DataKind::MediaTitle, title),
    ]);
}

/// Two ticks in a row, by either strategy, that hold the same artist and
/// titles whose normalised forms differ: the second tick announces the
/// title alone.
pub proof fn media_fields_are_independent(
    fallback_active: bool,
    last_artist: Seq<char>,
    last_title: Seq<char>,
    first: MediaSighting,
    second: MediaSighting,
)
    requires
        media_verdict(true, fallback_active, first) == MediaVerdict::Compared,
        media_verdict(true, fallback_active, second) == MediaVerdict::Compared,
        compared_artist(true, fallback_active, first) == compared_artist(
            true,
            fallback_active,
            second,
        ),
        compared_title(true, fallback_active, first) != compared_title(true, fallback_active, second),
    ensures
        latch_next(true, fallback_active, first) == fallback_active,
        media_wires(
            compared_artist(true, fallback_active, second),
            compared_title(true, fallback_active, second),
            field_next(compared_artist(true, fallback_active, first), last_artist),
            field_next(compared_title(true, fallback_active, first), last_title),
        ) == seq![
            text_wire(DataKind::MediaTitle, compared_title(true, fallback_active, second)->0),
        ],
{
    let artist = compared_artist(true, fallback_active, second)->0;
    let title = compared_title(true, fallback_active, second)->0;
    media_title_alone(
        artist,
        title,
        field_next(compared_artist(true, fallback_active, first), last_artist),
        field_next(compared_title(true, fallback_active, first), last_title),
    );
}

/// The latch is one-way: once the record has come back incomplete, the
/// script is the strategy in force on every later tick, whatever comes back
/// in between.
pub proof fn media_latch_is_permanent(
    fallback_active: bool,
    sightings: Seq<MediaSighting>,
    at: int,
    upto: int,
)
    requires
        0 <= at < upto <= sightings.len(),
        strategy_of(sightings[at]) == Strategy::Primary,
        complete_pair(sightings[at]) is None,
    ensures
        latch_after(fallback_active, sightings.take(upto)),
        strategy_in_force(latch_after(fallback_active, sightings.take(upto))) == Strategy::Fallback,
    decreases upto,
{
    let seen = sightings.take(upto);
    assert(seen.last() == sightings[upto - 1]);
    assert(seen.drop_last() =~= sightings.take(upto - 1));
    if at + 1 < upto {
        media_latch_is_permanent(fallback_active, sightings, at, upto - 1);
    }
}

/// Once the latch is set, what the record holds is not looked at, even
/// when it is complete: nothing is compared, nothing is announced, and the
/// latch stays set.
pub proof fn media_latched_ignores_record(
    connected: bool,
    sighting: MediaSighting,
    last_artist: Seq<char>,
    last_title: Seq<char>,
)
    requires
        strategy_of(sighting) == Strategy::Primary,
    ensures
        media_verdict(connected, true, sighting) != MediaVerdict::Compared,
        latch_next(connected, true, sighting),
        media_wires(
            compared_artist(connected, true, sighting),
            compared_title(connected, true, sighting),
            last_artist,
            last_title,
        ) == Seq::<Seq<u8>>::empty(),
{
    assert(media_wires(None, None, last_artist, last_title) =~= Seq::<Seq<u8>>::empty());
}

/// A disconnected watcher announces nothing and changes nothing.
pub proof fn media_stopped_is_silent(
    fallback_active: bool,
    sighting: MediaSighting,
    last_artist: Seq<char>,
    last_title: Seq<char>,
)
    ensures
        media_verdict(false, fallback_active, sighting) == MediaVerdict::Stopped,
        latch_next(false, fallback_active, sighting) == fallback_active,
        field_next(compared_artist(false, fallback_active, sighting), last_artist) == last_artist,
        field_next(compared_title(false, fallback_active, sighting), last_title) == last_title,
        media_wires(
            compared_artist(false, fallback_active, sighting),
            compared_title(false, fallback_active, sighting),
            last_artist,
            last_title,
        ) == Seq::<Seq<u8>>::empty(),
{
    assert(media_wires(None, None, last_artist, last_title) =~= Seq::<Seq<u8>>::empty());
}

} // verus!
