//! The keyboard-layout watcher: it turns the input-source identifier that the
//! operating system reports into a language code, and announces the code's
//! place in a configured catalog whenever the code changes.

use vstd::prelude::*;
use vstd::string::StrSliceExecFns;
use crate::channel::{deliver, Delivery};
use crate::connection::ConnectionWatch;
use crate::frame::Frame;
use crate::text::{chars_of, starts_at, str_equal, strip_leading, text_of};

verus! {

/// How long the watcher waits between two ticks, in milliseconds.
pub const LAYOUT_POLL_MILLIS: u64 = 500;

/// The namespace under which the system names its keyboard layouts.
pub open spec fn keylayout_prefix() -> Seq<char> {
    "com.apple.keylayout."@
}

/// The layout name inside an input-source identifier: what follows the
/// namespace, if the identifier begins with it. Should the namespace stand
/// there several times over, the name begins after the last of them.
pub open spec fn layout_name(identifier: Seq<char>) -> Option<Seq<char>> {
    if keylayout_prefix().is_prefix_of(identifier) {
        Some(strip_leading(identifier, keylayout_prefix()))
    } else {
        None
    }
}

/// The rules that were entered into a table, as a map from layout name to
/// language code. A later rule for the same name replaces an earlier one.
pub open spec fn rules_map(rules: Seq<(&'static str, &'static str)>) -> Map<Seq<char>, Seq<char>>
    decreases rules.len(),
{
    if rules.len() == 0 {
        Map::empty()
    } else {
        rules_map(rules.drop_last()).insert(rules.last().0@, rules.last().1@)
    }
}

/// The layout names this library knows, each with its language code.
pub open spec fn known_layouts() -> Map<Seq<char>, Seq<char>> {
    Map::<Seq<char>, Seq<char>>::empty().insert("U.S."@, "en"@).insert("ABC"@, "en"@).insert(
        "Russian"@,
        "ru"@,
    )
}

/// A table from layout names to language codes.
pub struct LayoutMap {
    rules: Vec<(&'static str, &'static str)>,
}

impl View for LayoutMap {
    type V = Map<Seq<char>, Seq<char>>;

    closed spec fn view(&self) -> Map<Seq<char>, Seq<char>> {
        rules_map(self.rules@)
    }
}

impl LayoutMap {
    /// The language code entered for `name`, if there is one.
    pub fn get(&self, name: &str) -> (code: Option<&'static str>)
        ensures
            match code {
                Some(c) => self@.contains_key(name@) && self@[name@] == c@,
                None => !self@.contains_key(name@),
            },
    {
        let mut i: usize = self.rules.len();
        assert(self.rules@.take(i as int) =~= self.rules@);
        while i > 0
            invariant
                i <= self.rules@.len(),
                rules_map(self.rules@).contains_key(name@) == rules_map(
                    self.rules@.take(i as int),
                ).contains_key(name@),
                rules_map(self.rules@).contains_key(name@) ==> rules_map(self.rules@)[name@]
                    == rules_map(self.rules@.take(i as int))[name@],
            decreases i,
        {
            let ghost upto = self.rules@.take(i as int);
            assert(upto.drop_last() =~= self.rules@.take(i - 1));
            assert(upto.last() == self.rules@[i - 1]);
            i = i - 1;
            let rule = self.rules[i];
            if str_equal(rule.0, name) {
                return Some(rule.1);
            }
        }
        assert(self.rules@.take(0) =~= Seq::empty());
        None
    }
}

/// The table of the layouts this library knows.
pub fn create_layout_map() -> (layout_map: LayoutMap)
    ensures
        layout_map@ == known_layouts(),
{
    let mut rules: Vec<(&'static str, &'static str)> = Vec::new();
    rules.push(("U.S.", "en"));
    rules.push(("ABC", "en"));
    rules.push(("Russian", "ru"));
    proof {
        let r = rules@;
        assert(r.drop_last().drop_last().drop_last() =~= Seq::empty());
        reveal_with_fuel(rules_map, 4);
        assert(rules_map(r) =~= known_layouts());
    }
    LayoutMap { rules }
}

/// The layout name that an input-source identifier carries, or `None` for an
/// identifier outside the system's keyboard-layout namespace.
pub fn extract_layout_name(full_layout: &str) -> (name: Option<String>)
    ensures
        text_of(name) == layout_name(full_layout@),
{
    let prefix = chars_of("com.apple.keylayout.");
    let text = chars_of(full_layout);
    proof {
        reveal_strlit("com.apple.keylayout.");
    }
    assert(text@.skip(0) =~= text@);
    if !starts_at(&text, 0, &prefix) {
        return None;
    }
    let len: usize = text.len();
    let mut from: usize = 0;
    while starts_at(&text, from, &prefix)
        invariant
            from <= text@.len() == len,
            prefix@ == keylayout_prefix(),
            prefix@.len() == 20,
            strip_leading(text@, prefix@) == strip_leading(text@.skip(from as int), prefix@),
        decreases text@.len() - from,
    {
        assert(text@.skip(from as int).skip(prefix@.len() as int) =~= text@.skip(
            from + prefix@.len(),
        ));
        from = from + prefix.len();
    }
    let rest = full_layout.substring_char(from, len);
    assert(rest@ =~= text@.skip(from as int));
    Some(rest.to_owned())
}

/// The language code of the layout that an input-source identifier names:
/// the identifier's layout name, looked up in `layout_map`.
pub open spec fn resolved_code(identifier: Seq<char>, layout_map: Map<Seq<char>, Seq<char>>) -> Option<
    Seq<char>,
> {
    match layout_name(identifier) {
        Some(name) => if layout_map.contains_key(name) {
            Some(layout_map[name])
        } else {
            None
        },
        None => None,
    }
}

/// Resolves an input-source identifier to a language code. An identifier
/// outside the namespace, or a layout name that the table lacks, gives `None`.
pub fn get_keyboard_layout_code(layout: &str, layout_map: &LayoutMap) -> (code: Option<String>)
    ensures
        text_of(code) == resolved_code(layout@, layout_map@),
{
    match extract_layout_name(layout) {
        Some(extracted_layout) => {
            match layout_map.get(extracted_layout.as_str()) {
                Some(code) => Some(code.to_owned()),
                None => None,
            }
        },
        None => None,
    }
}

/// The catalog as texts: the place of a code in it is what travels.
pub open spec fn catalog_of(layouts: Seq<String>) -> Seq<Seq<char>> {
    layouts.map_values(|s: String| s@)
}

/// The last place in the catalog that the one index byte of a frame can name.
pub const MAX_LAYOUT_INDEX: usize = 255;

/// The first place at which `code` stands in `layouts`, if it stands there.
pub fn catalog_position(layouts: &Vec<String>, code: &String) -> (position: Option<usize>)
    ensures
        match position {
            Some(i) => catalog_of(layouts@).index_of_first(code@) == Some(i as int),
            None => catalog_of(layouts@).index_of_first(code@) is None,
        },
{
    let ghost catalog = catalog_of(layouts@);
    let mut i: usize = 0;
    while i < layouts.len()
        invariant
            i <= layouts@.len(),
            catalog == catalog_of(layouts@),
            forall|j: int| 0 <= j < i ==> catalog[j] != code@,
        decreases layouts@.len() - i,
    {
        assert(catalog[i as int] == layouts@[i as int]@);
        if layouts[i] == *code {
            proof {
                assert(catalog.contains(code@));
                catalog.index_of_first_ensures(code@);
            }
            return Some(i);
        }
        i = i + 1;
    }
    proof {
        catalog.index_of_first_ensures(code@);
    }
    None
}

/// Announces `value` by its place in `layouts`: the frame is offered to the
/// queue if the catalog holds the code at a place that the index byte can
/// name. Nothing happens if the catalog lacks the code, or holds it first at
/// a place beyond `MAX_LAYOUT_INDEX`: the byte never names another place.
pub fn send_data(
    value: &String,
    layouts: &Vec<String>,
    data_sender: &tokio::sync::mpsc::Sender<Vec<u8>>,
) -> (sent: Option<Delivery>)
    ensures
        match catalog_of(layouts@).index_of_first(value@) {
            Some(i) => if i <= MAX_LAYOUT_INDEX {
                sent is Some && sent->0.frame.wire() == seq![0u8, i as u8]
            } else {
                sent is None
            },
            None => sent is None,
        },
        sent is Some ==> {
            let wire = sent->0.frame.wire();
            &&& wire.len() == 2
            &&& wire[0] == 0
            &&& wire[1] < layouts@.len()
            &&& layouts@[wire[1] as int]@ == value@
        },
{
    proof {
        catalog_of(layouts@).index_of_first_ensures(value@);
    }
    match catalog_position(layouts, value) {
        Some(index) => {
            if index <= MAX_LAYOUT_INDEX {
                Some(deliver(data_sender, Frame::layout(index as u8)))
            } else {
                None
            }
        },
        None => None,
    }
}

/// What one tick of the layout watcher came to.
#[derive(Clone, Copy, Debug, PartialEq, Eq, Structural)]
pub enum LayoutVerdict {
    /// The provider has been disconnected: it does nothing any more.
    Stopped,
    /// The system gave no identifier this time.
    NoReading,
    /// The identifier is outside the namespace, or names an unknown layout.
    Unrecognized,
    /// The code is the one that was announced last.
    Unchanged,
    /// The code is new, but the catalog does not hold it.
    NotInCatalog,
    /// The code is new and the catalog holds it, but first at a place beyond
    /// what the index byte can name.
    BeyondIndex,
    /// The code is new and was announced by this index byte.
    Emit(u8),
}

/// What the layout watcher decides on a tick, from whether it is connected,
/// the code it announced last, its catalog and table, and what the system
/// reported.
pub open spec fn layout_verdict(
    connected: bool,
    last: Option<Seq<char>>,
    catalog: Seq<Seq<char>>,
    layout_map: Map<Seq<char>, Seq<char>>,
    reading: Option<Seq<char>>,
) -> LayoutVerdict {
    if !connected {
        LayoutVerdict::Stopped
    } else {
        match reading {
            None => LayoutVerdict::NoReading,
            Some(identifier) => match resolved_code(identifier, layout_map) {
                None => LayoutVerdict::Unrecognized,
                Some(code) => if last == Some(code) {
                    LayoutVerdict::Unchanged
                } else {
                    match catalog.index_of_first(code) {
                        None => LayoutVerdict::NotInCatalog,
                        Some(i) => if i <= MAX_LAYOUT_INDEX {
                            LayoutVerdict::Emit(i as u8)
                        } else {
                            LayoutVerdict::BeyondIndex
                        },
                    }
                },
            },
        }
    }
}

/// The code that counts as announced after a tick: the reported one if the
/// tick announced it, the former one otherwise.
pub open spec fn layout_next(
    connected: bool,
    last: Option<Seq<char>>,
    catalog: Seq<Seq<char>>,
    layout_map: Map<Seq<char>, Seq<char>>,
    reading: Option<Seq<char>>,
) -> Option<Seq<char>> {
    match layout_verdict(connected, last, catalog, layout_map, reading) {
        LayoutVerdict::Emit(_) => resolved_code(reading->0, layout_map),
        _ => last,
    }
}

/// What the layout watcher remembers between ticks.
pub struct LayoutState {
    last_emitted: Option<String>,
}

impl LayoutState {
    /// The code that was announced last, if any was.
    pub closed spec fn last(&self) -> Option<Seq<char>> {
        text_of(self.last_emitted)
    }

    /// The state of a watcher that has announced nothing yet.
    pub fn new() -> (state: LayoutState)
        ensures
            state.last() is None,
    {
        LayoutState { last_emitted: None }
    }

    pub fn last_emitted(&self) -> (last: &Option<String>)
        ensures
            text_of(*last) == self.last(),
    {
        &self.last_emitted
    }
}

/// What a tick of the layout watcher did.
#[derive(Debug)]
pub struct LayoutReport {
    pub verdict: LayoutVerdict,
    /// The frame that was offered to the queue, if the tick announced a code.
    pub delivery: Option<Delivery>,
}

/// The keyboard-layout watcher.
pub struct LayoutProvider {
    data_sender: tokio::sync::mpsc::Sender<Vec<u8>>,
    connected_sender: tokio::sync::broadcast::Sender<bool>,
    layouts: Vec<String>,
}

impl LayoutProvider {
    /// The catalog this watcher was made with.
    pub closed spec fn catalog(&self) -> Seq<Seq<char>> {
        catalog_of(self.layouts@)
    }

    /// The output queue this watcher offers its frames to.
    pub closed spec fn queue(&self) -> tokio::sync::mpsc::Sender<Vec<u8>> {
        self.data_sender
    }

    /// The connection signal this watcher obeys.
    pub closed spec fn signal(&self) -> tokio::sync::broadcast::Sender<bool> {
        self.connected_sender
    }

    pub fn new(
        data_sender: tokio::sync::mpsc::Sender<Vec<u8>>,
        connected_sender: tokio::sync::broadcast::Sender<bool>,
        layouts: Vec<String>,
    ) -> (provider: LayoutProvider)
        ensures
            provider.catalog() == catalog_of(layouts@),
            provider.queue() == data_sender,
            provider.signal() == connected_sender,
    {
        LayoutProvider { data_sender, connected_sender, layouts }
    }

    pub fn layouts(&self) -> (layouts: &Vec<String>)
        ensures
            catalog_of(layouts@) == self.catalog(),
    {
        &self.layouts
    }

    /// The signal to subscribe to before the first tick.
    pub fn connected_sender(&self) -> (sender: &tokio::sync::broadcast::Sender<bool>)
        ensures
            *sender == self.signal(),
    {
        &self.connected_sender
    }

    /// One tick: given what the system reported as the active input source
    /// (`None` if it could not say), announces the layout's place in the
    /// catalog if its code is recognised, new and in the catalog at a place
    /// that the index byte can name, and remembers the code if it was
    /// announced. A disconnected provider does nothing.
    pub fn tick(
        &self,
        watch: &ConnectionWatch,
        state: &mut LayoutState,
        layout_map: &LayoutMap,
        reading: Option<&str>,
    ) -> (report: LayoutReport)
        ensures
            report.verdict == layout_verdict(
                watch.is_connected(),
                old(state).last(),
                self.catalog(),
                layout_map@,
                reading_text(reading),
            ),
            final(state).last() == layout_next(
                watch.is_connected(),
                old(state).last(),
                self.catalog(),
                layout_map@,
                reading_text(reading),
            ),
            match report.verdict {
                LayoutVerdict::Emit(index) => report.delivery is Some
                    && report.delivery->0.frame.wire() == seq![0u8, index],
                _ => report.delivery is None,
            },
    {
        if !watch.connected() {
            return LayoutReport { verdict: LayoutVerdict::Stopped, delivery: None };
        }
        let identifier = match reading {
            Some(identifier) => identifier,
            None => {
                return LayoutReport { verdict: LayoutVerdict::NoReading, delivery: None };
            },
        };
        let layout_code = match get_keyboard_layout_code(identifier, layout_map) {
            Some(layout_code) => layout_code,
            None => {
                return LayoutReport { verdict: LayoutVerdict::Unrecognized, delivery: None };
            },
        };
        let unchanged = match &state.last_emitted {
            Some(last) => *last == layout_code,
            None => false,
        };
        if unchanged {
            return LayoutReport { verdict: LayoutVerdict::Unchanged, delivery: None };
        }
        match send_data(&layout_code, &self.layouts, &self.data_sender) {
            Some(delivery) => {
                let index: u8 = delivery.frame.payload[0];
                state.last_emitted = Some(layout_code);
                LayoutReport { verdict: LayoutVerdict::Emit(index), delivery: Some(delivery) }
            },
            None => {
                let verdict = match catalog_position(&self.layouts, &layout_code) {
                    Some(_) => LayoutVerdict::BeyondIndex,
                    None => LayoutVerdict::NotInCatalog,
                };
                LayoutReport { verdict, delivery: None }
            },
        }
    }
}

/// What a reading holds, as characters.
pub open spec fn reading_text(reading: Option<&str>) -> Option<Seq<char>> {
    match reading {
        Some(identifier) => Some(identifier@),
        None => None,
    }
}

/// The code a connected watcher counts as announced after it has seen each
/// of `readings` in turn.
pub open spec fn layout_after(
    last: Option<Seq<char>>,
    catalog: Seq<Seq<char>>,
    layout_map: Map<Seq<char>, Seq<char>>,
    readings: Seq<Option<Seq<char>>>,
) -> Option<Seq<char>>
    decreases readings.len(),
{
    if readings.len() == 0 {
        last
    } else {
        layout_next(
            true,
            layout_after(last, catalog, layout_map, readings.drop_last()),
            catalog,
            layout_map,
            readings.last(),
        )
    }
}

/// The code that a reading resolves to, if it resolves.
pub open spec fn reading_code(
    reading: Option<Seq<char>>,
    layout_map: Map<Seq<char>, Seq<char>>,
) -> Option<Seq<char>> {
    match reading {
        Some(identifier) => resolved_code(identifier, layout_map),
        None => None,
    }
}

/// Once a tick has announced a code, further ticks announce nothing as long
/// as the code stays the same, however many they are. A tick whose reading
/// failed or was not recognised counts as one on which the code stayed.
pub proof fn layout_repeats_are_silent(
    last: Option<Seq<char>>,
    catalog: Seq<Seq<char>>,
    layout_map: Map<Seq<char>, Seq<char>>,
    first: Option<Seq<char>>,
    repeats: Seq<Option<Seq<char>>>,
    k: int,
)
    requires
        layout_verdict(true, last, catalog, layout_map, first) is Emit,
        forall|i: int|
            0 <= i < repeats.len() ==> {
                ||| reading_code(#[trigger] repeats[i], layout_map) == reading_code(
                    first,
                    layout_map,
                )
                ||| reading_code(repeats[i], layout_map) is None
            },
        0 <= k < repeats.len(),
    ensures
        layout_after(
            layout_next(true, last, catalog, layout_map, first),
            catalog,
            layout_map,
            repeats.take(k),
        ) == reading_code(first, layout_map),
        !(layout_verdict(
            true,
            layout_after(
                layout_next(true, last, catalog, layout_map, first),
                catalog,
                layout_map,
                repeats.take(k),
            ),
            catalog,
            layout_map,
            repeats[k],
        ) is Emit),
    decreases k,
{
    if k > 0 {
        layout_repeats_are_silent(last, catalog, layout_map, first, repeats, k - 1);
        let seen = repeats.take(k);
        assert(seen.drop_last() =~= repeats.take(k - 1));
        assert(seen.last() == repeats[k - 1]);
    }
}

/// A new code that the catalog holds is announced by its place there, the
/// first at which it stands, whenever the index byte can name that place;
/// beyond that nothing is announced and nothing is remembered.
pub proof fn layout_announces_position(
    last: Option<Seq<char>>,
    catalog: Seq<Seq<char>>,
    layout_map: Map<Seq<char>, Seq<char>>,
    reading: Option<Seq<char>>,
    position: int,
)
    requires
        0 <= position < catalog.len(),
        forall|j: int| 0 <= j < position ==> catalog[j] != catalog[position],
        reading_code(reading, layout_map) == Some(catalog[position]),
        last != Some(catalog[position]),
    ensures
        position <= MAX_LAYOUT_INDEX ==> layout_verdict(true, last, catalog, layout_map, reading)
            == LayoutVerdict::Emit(position as u8),
        position > MAX_LAYOUT_INDEX ==> layout_verdict(true, last, catalog, layout_map, reading)
            == LayoutVerdict::BeyondIndex && layout_next(
            true,
            last,
            catalog,
            layout_map,
            reading,
        ) == last,
{
    let code = catalog[position];
    assert(catalog.contains(code));
    catalog.index_of_first_ensures(code);
}

/// Whatever the catalog's length, an index byte that is announced names a
/// place of the catalog, that place holds the code that the reading resolves
/// to, and no earlier place does.
pub proof fn layout_index_names_the_place(
    connected: bool,
    last: Option<Seq<char>>,
    catalog: Seq<Seq<char>>,
    layout_map: Map<Seq<char>, Seq<char>>,
    reading: Option<Seq<char>>,
    index: u8,
)
    requires
        layout_verdict(connected, last, catalog, layout_map, reading) == LayoutVerdict::Emit(index),
    ensures
        connected,
        index < catalog.len(),
        reading_code(reading, layout_map) == Some(catalog[index as int]),
        forall|j: int| 0 <= j < index ==> catalog[j] != catalog[index as int],
        layout_next(connected, last, catalog, layout_map, reading) == Some(catalog[index as int]),
{
    let code = reading_code(reading, layout_map)->0;
    catalog.index_of_first_ensures(code);
}

/// A code that the catalog does not hold is never announced.
pub proof fn layout_outside_catalog_is_silent(
    connected: bool,
    last: Option<Seq<char>>,
    catalog: Seq<Seq<char>>,
    layout_map: Map<Seq<char>, Seq<char>>,
    reading: Option<Seq<char>>,
)
    requires
        reading_code(reading, layout_map) is Some,
        !catalog.contains(reading_code(reading, layout_map)->0),
    ensures
        !(layout_verdict(connected, last, catalog, layout_map, reading) is Emit),
        layout_next(connected, last, catalog, layout_map, reading) == last,
{
    catalog.index_of_first_ensures(reading_code(reading, layout_map)->0);
}

/// A disconnected watcher announces nothing and changes nothing.
pub proof fn layout_stopped_is_silent(
    last: Option<Seq<char>>,
    catalog: Seq<Seq<char>>,
    layout_map: Map<Seq<char>, Seq<char>>,
    reading: Option<Seq<char>>,
)
    ensures
        layout_verdict(false, last, catalog, layout_map, reading) == LayoutVerdict::Stopped,
        layout_next(false, last, catalog, layout_map, reading) == last,
{
}

} // verus!
