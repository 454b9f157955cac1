//! The three kinds of player that the bus can hold, and what each of them is
//! called, is asked and is told.

use crate::text::{after_prefix, same_text, starts_with};
use vstd::prelude::*;
use vstd::string::*;

verus! {

/// Every generic transport player owns a bus name that begins with this.
pub const MPRIS_PREFIX: &'static str = "org.mpris.MediaPlayer2.";

/// The bus name that is reserved for the audio relay player. It begins with
/// `MPRIS_PREFIX`, and a service of this name is never treated as a generic
/// transport player.
pub const SERVICE_NAME: &'static str = "org.mpris.MediaPlayer2.ShairportSync";

/// The bus name that is reserved for the radio stream player.
pub const RADIOTRAY_NG: &'static str = "com.github.radiotray_ng";

/// What follows the name of a generic transport player when it is shown.
pub const MPRIS_TAG: &'static str = " (MPRIS)";

/// What the radio stream player is called when it is shown.
pub const RADIOTRAY_NAME: &'static str = "RadioTrayNG";

/// The protocol that a player speaks.
#[derive(Debug, Clone, Copy, PartialEq, Eq, Structural)]
pub enum BackendKind {
    /// A generic transport player.
    Mpris,
    /// The radio stream player.
    RadioTray,
    /// The audio relay player.
    ShairportSync,
}

/// One of the four things that a player can be told to do.
#[derive(Debug, Clone, Copy, PartialEq, Eq, Structural)]
pub enum Control {
    Play,
    Stop,
    Next,
    Prev,
}

/// A remote method of a player. Which methods exist depends on the protocol.
#[derive(Debug, Clone, Copy, PartialEq, Eq, Structural)]
pub enum RemoteCall {
    /// Start when paused, pause when playing.
    PlayPause,
    /// Start playing; there is no pause.
    Play,
    Stop,
    Next,
    Previous,
    NextStation,
    PreviousStation,
}

/// The remote method by which a player of the given kind carries out a
/// control. The two transport protocols toggle between play and pause and
/// step through tracks; the radio stream player has a plain play and steps
/// through stations.
pub open spec fn call_for(kind: BackendKind, control: Control) -> RemoteCall {
    match (kind, control) {
        (BackendKind::RadioTray, Control::Play) => RemoteCall::Play,
        (BackendKind::RadioTray, Control::Next) => RemoteCall::NextStation,
        (BackendKind::RadioTray, Control::Prev) => RemoteCall::PreviousStation,
        (_, Control::Play) => RemoteCall::PlayPause,
        (_, Control::Next) => RemoteCall::Next,
        (_, Control::Prev) => RemoteCall::Previous,
        (_, Control::Stop) => RemoteCall::Stop,
    }
}

impl BackendKind {
    /// Picks the remote method for a control.
    pub fn remote_call(self, control: Control) -> (call: RemoteCall)
        ensures
            call == call_for(self, control),
    {
        match self {
            BackendKind::RadioTray => match control {
                Control::Play => RemoteCall::Play,
                Control::Stop => RemoteCall::Stop,
                Control::Next => RemoteCall::NextStation,
                Control::Prev => RemoteCall::PreviousStation,
            },
            BackendKind::Mpris | BackendKind::ShairportSync => match control {
                Control::Play => RemoteCall::PlayPause,
                Control::Stop => RemoteCall::Stop,
                Control::Next => RemoteCall::Next,
                Control::Prev => RemoteCall::Previous,
            },
        }
    }
}

/// The kind of player that owns a bus name, if it is a player's name at all.
/// The reserved names come first: the audio relay player's name also begins
/// with the transport prefix.
pub open spec fn kind_of(bus_name: Seq<char>) -> Option<BackendKind> {
    if bus_name == SERVICE_NAME@ {
        Some(BackendKind::ShairportSync)
    } else if MPRIS_PREFIX@.is_prefix_of(bus_name) {
        Some(BackendKind::Mpris)
    } else if bus_name == RADIOTRAY_NG@ {
        Some(BackendKind::RadioTray)
    } else {
        None
    }
}

/// Tells what kind of player owns a bus name.
pub fn classify(bus_name: &str) -> (kind: Option<BackendKind>)
    ensures
        kind == kind_of(bus_name@),
{
    if same_text(bus_name, SERVICE_NAME) {
        Some(BackendKind::ShairportSync)
    } else if starts_with(bus_name, MPRIS_PREFIX) {
        Some(BackendKind::Mpris)
    } else if same_text(bus_name, RADIOTRAY_NG) {
        Some(BackendKind::RadioTray)
    } else {
        None
    }
}

/// A player as a kind and a bus name.
pub struct BackendView {
    pub kind: BackendKind,
    pub bus_name: Seq<char>,
}

impl BackendView {
    /// The name under which the player is shown and selected. A transport
    /// player is called by what follows the prefix in its bus name, with the
    /// protocol tag behind it; the audio relay player likewise, without the
    /// tag; the radio stream player has a fixed name.
    pub open spec fn display_name(self) -> Seq<char> {
        match self.kind {
            BackendKind::Mpris => self.bus_name.skip(MPRIS_PREFIX@.len() as int) + MPRIS_TAG@,
            BackendKind::ShairportSync => self.bus_name.skip(MPRIS_PREFIX@.len() as int),
            BackendKind::RadioTray => RADIOTRAY_NAME@,
        }
    }
}

/// One player on the bus: the name that it owns there and the protocol that
/// it speaks. The kind is always the one that the bus name calls for.
#[derive(Debug, PartialEq, Eq)]
pub struct Backend {
    kind: BackendKind,
    bus_name: String,
}

impl View for Backend {
    type V = BackendView;

    closed spec fn view(&self) -> BackendView {
        BackendView { kind: self.kind, bus_name: self.bus_name@ }
    }
}

impl DeepView for Backend {
    type V = BackendView;

    open spec fn deep_view(&self) -> BackendView {
        self@
    }
}

impl Clone for Backend {
    fn clone(&self) -> (copy: Backend)
        ensures
            copy@ == self@,
    {
        proof {
            use_type_invariant(self);
        }
        Backend { kind: self.kind, bus_name: self.bus_name.clone() }
    }
}

impl Backend {
    #[verifier::type_invariant]
    spec fn well_formed(self) -> bool {
        kind_of(self.bus_name@) == Some(self.kind)
    }

    /// The player that owns `bus_name`, or nothing where the name is not a
    /// player's.
    pub fn new(bus_name: &str) -> (made: Option<Backend>)
        ensures
            made is Some <==> kind_of(bus_name@) is Some,
            made matches Some(backend) ==> backend@ == (BackendView {
                kind: kind_of(bus_name@)->0,
                bus_name: bus_name@,
            }),
    {
        match classify(bus_name) {
            Some(kind) => Some(Backend { kind, bus_name: String::from_str(bus_name) }),
            None => None,
        }
    }

    /// The protocol that the player speaks.
    pub fn kind(&self) -> (kind: BackendKind)
        ensures
            kind == self@.kind,
            Some(kind) == kind_of(self@.bus_name),
    {
        proof {
            use_type_invariant(self);
        }
        self.kind
    }

    /// The name that the player owns on the bus.
    pub fn bus_name(&self) -> (name: &str)
        ensures
            name@ == self@.bus_name,
    {
        self.bus_name.as_str()
    }

    /// The name under which the player is shown and selected.
    pub fn name(&self) -> (name: String)
        ensures
            name@ == self@.display_name(),
    {
        proof {
            use_type_invariant(self);
            lemma_reserved_names();
        }
        match self.kind {
            BackendKind::Mpris => {
                let mut name = after_prefix(self.bus_name.as_str(), MPRIS_PREFIX);
                name.append(MPRIS_TAG);
                name
            },
            BackendKind::ShairportSync => after_prefix(self.bus_name.as_str(), MPRIS_PREFIX),
            BackendKind::RadioTray => String::from_str(RADIOTRAY_NAME),
        }
    }
}

/// The audio relay player's reserved name begins with the transport prefix,
/// and what follows the prefix in it is `ShairportSync`. The radio stream
/// player's reserved name does not begin with the prefix.
pub proof fn lemma_reserved_names()
    ensures
        MPRIS_PREFIX@.is_prefix_of(SERVICE_NAME@),
        !MPRIS_PREFIX@.is_prefix_of(RADIOTRAY_NG@),
        SERVICE_NAME@ != RADIOTRAY_NG@,
        SERVICE_NAME@.skip(MPRIS_PREFIX@.len() as int) == seq![
            'S',
            'h',
            'a',
            'i',
            'r',
            'p',
            'o',
            'r',
            't',
            'S',
            'y',
            'n',
            'c',
        ],
{
    reveal_strlit("org.mpris.MediaPlayer2.");
    reveal_strlit("org.mpris.MediaPlayer2.ShairportSync");
    reveal_strlit("com.github.radiotray_ng");
    assert(RADIOTRAY_NG@.subrange(0, MPRIS_PREFIX@.len() as int)[0] == 'c');
}

} // verus!
