//! The engine: the messages it takes, what each does to the state, and how
//! the state is framed for storage and recovered from it.

use vstd::prelude::*;
use vstd::string::*;

use crate::codec::{base64_decoding, base64_encoding, is_base64_symbol, max_encodable_len};
use crate::codec::{decode, encode};
use crate::cultivator::{Cultivator, CultivatorModel};

verus! {

/// The one key under which the saved game is kept in storage.
pub const STORAGE_KEY: &'static str = "myimmortalreincarnation";

/// The events that the engine answers.
#[derive(Clone, Copy, Debug, PartialEq, Eq, Structural)]
pub enum Msg {
    /// A periodic tick. It has no meaning yet.
    Heartbeat,
    /// The player asks to save the game.
    SaveGame,
    /// The player asks to load the saved game.
    LoadGame,
    /// One act of spiritual cultivation.
    Spirit,
    /// One act of physical cultivation.
    Vessel,
}

/// What is left to the caller once `App::update` has answered a message.
#[derive(Clone, Copy, Debug, PartialEq, Eq, Structural)]
pub enum Outcome {
    /// The state has changed in place and is to be shown again.
    Changed,
    /// The state is to be saved: serialized, framed by `App::save_data` and
    /// written under `STORAGE_KEY`.
    Save,
    /// The state is to be replaced by what `App::load_data` makes of the
    /// text read under `STORAGE_KEY`.
    Load,
    /// The message has no defined effect: nothing was done.
    Unspecified,
}

impl Outcome {
    /// Whether the state is to be shown again: after every message but one
    /// without a defined effect.
    pub fn redraw(&self) -> (again: bool)
        ensures
            again == (*self != Outcome::Unspecified),
    {
        match self {
            Outcome::Changed | Outcome::Save | Outcome::Load => true,
            Outcome::Unspecified => false,
        }
    }
}

/// The game: the state of its one cultivator.
#[derive(Clone, Copy, Debug, PartialEq, Eq, Structural)]
pub struct App {
    pub cultivator: Cultivator,
}

/// What `App::load_data` makes of the content of storage.
#[derive(Debug)]
pub enum Loaded {
    /// Nothing was stored: the game starts from this state.
    Fresh(App),
    /// The serialized record from which the state is to be read.
    Record(Vec<u8>),
}

/// The state that `msg` leaves behind when it arrives in `state`.
pub open spec fn state_after(state: CultivatorModel, msg: Msg) -> CultivatorModel {
    match msg {
        Msg::Spirit => state.increment_spiritual(),
        Msg::Vessel => state.increment_vessel(),
        Msg::SaveGame | Msg::LoadGame | Msg::Heartbeat => state,
    }
}

/// The state that a run of messages leaves behind, each taken in its turn.
pub open spec fn state_after_all(state: CultivatorModel, msgs: Seq<Msg>) -> CultivatorModel
    decreases msgs.len(),
{
    if msgs.len() == 0 {
        state
    } else {
        state_after(state_after_all(state, msgs.drop_last()), msgs.last())
    }
}

/// What answering `msg` leaves to the caller.
pub open spec fn outcome_of(msg: Msg) -> Outcome {
    match msg {
        Msg::Spirit | Msg::Vessel => Outcome::Changed,
        Msg::SaveGame => Outcome::Save,
        Msg::LoadGame => Outcome::Load,
        Msg::Heartbeat => Outcome::Unspecified,
    }
}

/// The record that is to be read: what was decoded from storage, or
/// `fallback` where nothing could be decoded.
pub open spec fn record_or(decoded: Option<Seq<u8>>, fallback: Seq<u8>) -> Seq<u8> {
    match decoded {
        Some(bytes) => bytes,
        None => fallback,
    }
}

/// The record that the content of storage stands for: none where nothing is
/// stored, else what the stored text encodes, or `fallback` where the text is
/// no valid encoding.
pub open spec fn stored_record(stored: Option<Seq<char>>, fallback: Seq<u8>) -> Option<Seq<u8>> {
    match stored {
        None => None,
        Some(text) => Some(record_or(base64_decoding(text), fallback)),
    }
}

impl View for App {
    type V = CultivatorModel;

    open spec fn view(&self) -> CultivatorModel {
        self.cultivator@
    }
}

impl Default for App {
    /// The game in the state every cultivator starts from.
    fn default() -> (app: App)
        ensures
            app@ == CultivatorModel::initial(),
    {
        App { cultivator: Cultivator::default() }
    }
}

impl App {
    /// Whether the counters have room for what `msg` adds. Messages that add
    /// nothing are always admitted.
    pub open spec fn admits(self, msg: Msg) -> bool {
        match msg {
            Msg::Spirit => self.cultivator.spiritual_room(),
            Msg::Vessel => self.cultivator.vessel_room(),
            Msg::SaveGame | Msg::LoadGame | Msg::Heartbeat => true,
        }
    }

    /// Tells whether `update` can take `msg` in this state.
    pub fn accepts(&self, msg: Msg) -> (ok: bool)
        ensures
            ok == self.admits(msg),
    {
        match msg {
            Msg::Spirit => self.cultivator.spiritual_qi <= u64::MAX
                - self.cultivator.spiritual_cultivation.value(),
            Msg::Vessel => self.cultivator.vessel_qi <= u64::MAX - crate::tier::QI_UNIT,
            Msg::SaveGame | Msg::LoadGame | Msg::Heartbeat => true,
        }
    }

    /// Answers one message. An act of cultivation changes the state in
    /// place. Saving and loading touch the storage, which is the caller's:
    /// the state stays as it is and the outcome tells the caller what to do.
    /// A heartbeat does nothing.
    pub fn update(&mut self, msg: Msg) -> (outcome: Outcome)
        requires
            old(self).admits(msg),
        ensures
            final(self)@ == state_after(old(self)@, msg),
            outcome == outcome_of(msg),
    {
        match msg {
            Msg::SaveGame => Outcome::Save,
            Msg::LoadGame => Outcome::Load,
            Msg::Heartbeat => Outcome::Unspecified,
            Msg::Spirit => {
                self.cultivator.increment_spiritual();
                Outcome::Changed
            },
            Msg::Vessel => {
                self.cultivator.increment_vessel();
                Outcome::Changed
            },
        }
    }

    /// Frames a serialized record for storage. The text that comes out
    /// holds letters, digits, `+` and `/` only, and it stands for the bytes
    /// of `serialized`: `load_data` hands out exactly those bytes for it,
    /// whatever the fallback.
    pub fn save_data(serialized: &str) -> (stored: String)
        requires
            serialized.spec_bytes().len() <= max_encodable_len(),
        ensures
            stored@ == base64_encoding(serialized.spec_bytes()),
            forall|fallback: Seq<u8>| #[trigger]
                stored_record(Some(stored@), fallback) == Some(serialized.spec_bytes()),
            forall|i: int| 0 <= i < stored@.len() ==> is_base64_symbol(#[trigger] stored@[i]),
    {
        encode(serialized.as_bytes())
    }

    /// Chooses the record to read between what was decoded from storage and
    /// the fallback.
    pub fn record_from(decoded: Option<Vec<u8>>, fallback: Vec<u8>) -> (record: Vec<u8>)
        ensures
            record@ == match decoded {
                Some(bytes) => bytes@,
                None => fallback@,
            },
    {
        match decoded {
            Some(bytes) => bytes,
            None => fallback,
        }
    }

    /// Makes of the content of storage what the game is loaded from.
    ///
    /// `stored` is the text read under `STORAGE_KEY`, or `None` where the key
    /// is absent or could not be read; `fallback` is the serialized form of
    /// the initial state. Without a stored text the game starts afresh, and
    /// nothing is decoded. A stored text yields the record it encodes, and
    /// one that is no valid encoding yields `fallback` in its place.
    pub fn load_data(stored: Option<&str>, fallback: Vec<u8>) -> (loaded: Loaded)
        ensures
            match loaded {
                Loaded::Fresh(app) => stored is None && app@ == CultivatorModel::initial(),
                Loaded::Record(record) => stored matches Some(text) && stored_record(
                    Some(text@),
                    fallback@,
                ) == Some(record@),
            },
    {
        match stored {
            None => Loaded::Fresh(App::default()),
            Some(text) => Loaded::Record(App::record_from(decode(text), fallback)),
        }
    }
}

/// No message lowers an amount of qi, and none touches the cycle count, a
/// stage or a rating.
pub proof fn lemma_update_keeps_progress(state: CultivatorModel, msg: Msg)
    ensures
        state_after(state, msg).vessel_qi >= state.vessel_qi,
        state_after(state, msg).spiritual_qi >= state.spiritual_qi,
        state_after(state, msg).vessel_cycles == state.vessel_cycles,
        state_after(state, msg).vessel_cultivation == state.vessel_cultivation,
        state_after(state, msg).spiritual_cultivation == state.spiritual_cultivation,
        state_after(state, msg).spiritual_harmony == state.spiritual_harmony,
        state_after(state, msg).meridians == state.meridians,
{
}

/// Along any run of messages no amount of qi is ever lowered, and the cycle
/// count, the stages and the ratings stay what they were at the start.
pub proof fn lemma_run_keeps_progress(state: CultivatorModel, msgs: Seq<Msg>)
    ensures
        state_after_all(state, msgs).vessel_qi >= state.vessel_qi,
        state_after_all(state, msgs).spiritual_qi >= state.spiritual_qi,
        state_after_all(state, msgs).vessel_cycles == state.vessel_cycles,
        state_after_all(state, msgs).vessel_cultivation == state.vessel_cultivation,
        state_after_all(state, msgs).spiritual_cultivation == state.spiritual_cultivation,
        state_after_all(state, msgs).spiritual_harmony == state.spiritual_harmony,
        state_after_all(state, msgs).meridians == state.meridians,
    decreases msgs.len(),
{
    if msgs.len() > 0 {
        lemma_run_keeps_progress(state, msgs.drop_last());
        lemma_update_keeps_progress(state_after_all(state, msgs.drop_last()), msgs.last());
    }
}

} // verus!
