//! Identifiers of threads, turns and items, on this side and on the app-server's side.

use vstd::prelude::*;

use crate::number::{hex_text, i64_text};

verus! {

/// The hyphenated lower-case hexadecimal text of a 128-bit identifier: groups of eight, four,
/// four, four and twelve digits.
pub open spec fn id_chars(value: u128) -> Seq<char> {
    let n = value as nat;
    crate::number::padded_hex(n / 0x1_0000_0000_0000_0000_0000_0000, 8) + "-"@
        + crate::number::padded_hex((n / 0x1_0000_0000_0000_0000_0000) % 0x1_0000, 4) + "-"@
        + crate::number::padded_hex((n / 0x1_0000_0000_0000_0000) % 0x1_0000, 4) + "-"@
        + crate::number::padded_hex((n / 0x1_0000_0000_0000) % 0x1_0000, 4) + "-"@
        + crate::number::padded_hex(n % 0x1_0000_0000_0000, 12)
}

/// The text of a 128-bit identifier.
pub fn id_text(value: u128) -> (text: String)
    ensures
        text@ == id_chars(value),
{
    let mut text = hex_text((value / 0x1_0000_0000_0000_0000_0000_0000) as u64, 8);
    text.append("-");
    text.append(hex_text(((value / 0x1_0000_0000_0000_0000_0000) % 0x1_0000) as u64, 4).as_str());
    text.append("-");
    text.append(hex_text(((value / 0x1_0000_0000_0000_0000) % 0x1_0000) as u64, 4).as_str());
    text.append("-");
    text.append(hex_text(((value / 0x1_0000_0000_0000) % 0x1_0000) as u64, 4).as_str());
    text.append("-");
    text.append(hex_text((value % 0x1_0000_0000_0000) as u64, 12).as_str());
    text
}

/// A conversation thread, as this side names it.
#[derive(Clone, Copy, PartialEq, Eq, Structural, Debug)]
pub struct ThreadId(pub u128);

/// A turn of a thread, as this side names it.
#[derive(Clone, Copy, PartialEq, Eq, Structural, Debug)]
pub struct TurnId(pub u128);

/// An item of a turn, as this side names it.
#[derive(Clone, Copy, PartialEq, Eq, Structural, Debug)]
pub struct ItemId(pub u128);

/// A project, as this side names it.
#[derive(Clone, Copy, PartialEq, Eq, Structural, Debug)]
pub struct ProjectId(pub u128);

impl View for ThreadId {
    type V = ThreadId;

    open spec fn view(&self) -> ThreadId {
        *self
    }
}

impl View for TurnId {
    type V = TurnId;

    open spec fn view(&self) -> TurnId {
        *self
    }
}

impl View for ItemId {
    type V = ItemId;

    open spec fn view(&self) -> ItemId {
        *self
    }
}

impl ThreadId {
    /// The characters of this id's text.
    pub open spec fn chars(self) -> Seq<char> {
        id_chars(self.0)
    }

    /// The text of this id.
    pub fn text(self) -> (text: String)
        ensures
            text@ == self.chars(),
    {
        id_text(self.0)
    }
}

impl TurnId {
    /// The characters of this id's text.
    pub open spec fn chars(self) -> Seq<char> {
        id_chars(self.0)
    }

    /// The text of this id.
    pub fn text(self) -> (text: String)
        ensures
            text@ == self.chars(),
    {
        id_text(self.0)
    }
}

/// The identifier of a JSON-RPC request. The app-server may use either form.
#[derive(Debug)]
pub enum RequestId {
    /// A text identifier.
    String(String),
    /// A numeric identifier.
    Integer(i64),
}

impl RequestId {
    /// The characters by which an answer to the request is looked up.
    pub open spec fn chars(self) -> Seq<char> {
        match self {
            RequestId::String(text) => text@,
            RequestId::Integer(n) => crate::number::signed_decimal(n as int),
        }
    }

    /// Another value of the same identifier.
    pub fn copy(&self) -> (id: RequestId)
        ensures
            id == *self,
    {
        match self {
            RequestId::String(text) => RequestId::String(text.clone()),
            RequestId::Integer(n) => RequestId::Integer(*n),
        }
    }
}

/// The identifier of a JSON-RPC request, with text as characters.
pub enum RequestIdView {
    /// View of [`RequestId::String`].
    String(Seq<char>),
    /// View of [`RequestId::Integer`].
    Integer(i64),
}

impl View for RequestId {
    type V = RequestIdView;

    open spec fn view(&self) -> RequestIdView {
        match *self {
            RequestId::String(text) => RequestIdView::String(text@),
            RequestId::Integer(n) => RequestIdView::Integer(n),
        }
    }
}

/// The text of a request identifier.
pub fn request_id_to_string(id: &RequestId) -> (text: String)
    ensures
        text@ == id.chars(),
{
    match id {
        RequestId::String(text) => text.clone(),
        RequestId::Integer(n) => i64_text(*n),
    }
}

/// The name of a thread at the app-server.
#[derive(Debug)]
pub struct NativeThreadId(String);

/// The name of a turn at the app-server.
#[derive(Debug)]
pub struct NativeTurnId(String);

/// The name of an item at the app-server.
#[derive(Debug)]
pub struct NativeItemId(String);

/// The name of a process at the app-server.
#[derive(Debug)]
pub struct NativeProcessId(String);

impl View for NativeThreadId {
    type V = Seq<char>;

    closed spec fn view(&self) -> Seq<char> {
        self.0@
    }
}

impl View for NativeTurnId {
    type V = Seq<char>;

    closed spec fn view(&self) -> Seq<char> {
        self.0@
    }
}

impl View for NativeItemId {
    type V = Seq<char>;

    closed spec fn view(&self) -> Seq<char> {
        self.0@
    }
}

impl View for NativeProcessId {
    type V = Seq<char>;

    closed spec fn view(&self) -> Seq<char> {
        self.0@
    }
}

impl NativeThreadId {
    /// The thread of a name.
    pub fn new(value: String) -> (id: Self)
        ensures
            id@ == value@,
    {
        NativeThreadId(value)
    }

    /// The name.
    pub fn as_str(&self) -> (text: &str)
        ensures
            text@ == self@,
    {
        self.0.as_str()
    }

    /// The name, for whoever keeps it.
    pub fn into_inner(self) -> (text: String)
        ensures
            text@ == self@,
    {
        self.0
    }
}

impl NativeTurnId {
    /// The turn of a name.
    pub fn new(value: String) -> (id: Self)
        ensures
            id@ == value@,
    {
        NativeTurnId(value)
    }

    /// The name.
    pub fn as_str(&self) -> (text: &str)
        ensures
            text@ == self@,
    {
        self.0.as_str()
    }
}

impl NativeItemId {
    /// The item of a name.
    pub fn new(value: String) -> (id: Self)
        ensures
            id@ == value@,
    {
        NativeItemId(value)
    }
}

impl NativeProcessId {
    /// The process of a name.
    pub fn new(value: String) -> (id: Self)
        ensures
            id@ == value@,
    {
        NativeProcessId(value)
    }
}

/// A turn, told apart from turns of the same name in other threads.
#[derive(Debug)]
pub struct NativeTurnKey {
    /// The thread.
    pub thread_id: ThreadId,
    /// The turn's name.
    pub native_turn_id: NativeTurnId,
}

impl NativeTurnKey {
    /// The turn of a thread.
    pub fn new(thread_id: ThreadId, native_turn_id: NativeTurnId) -> (key: Self)
        ensures
            key == (NativeTurnKey { thread_id, native_turn_id }),
    {
        NativeTurnKey { thread_id, native_turn_id }
    }
}

/// An item, told apart from items of the same name in other turns.
#[derive(Debug)]
pub struct NativeItemKey {
    /// The thread.
    pub thread_id: ThreadId,
    /// The turn.
    pub turn_id: TurnId,
    /// The item's name.
    pub native_item_id: NativeItemId,
}

impl NativeItemKey {
    /// The item of a turn.
    pub fn new(thread_id: ThreadId, turn_id: TurnId, native_item_id: NativeItemId) -> (key: Self)
        ensures
            key == (NativeItemKey { thread_id, turn_id, native_item_id }),
    {
        NativeItemKey { thread_id, turn_id, native_item_id }
    }
}

/// A process, told apart from processes of the same name in other threads.
#[derive(Debug)]
pub struct NativeProcessKey {
    /// The thread.
    pub thread_id: ThreadId,
    /// The process's name.
    pub native_process_id: NativeProcessId,
}

impl NativeProcessKey {
    /// The process of a thread.
    pub fn new(thread_id: ThreadId, native_process_id: NativeProcessId) -> (key: Self)
        ensures
            key == (NativeProcessKey { thread_id, native_process_id }),
    {
        NativeProcessKey { thread_id, native_process_id }
    }
}

/// A position in the strictly increasing sequence of route epochs.
#[derive(Clone, Copy, PartialEq, Eq, Structural, Debug)]
pub struct NativeRouteEpoch(pub u64);

impl NativeRouteEpoch {
    /// The epoch with the given number.
    pub fn new(value: u64) -> (epoch: Self)
        ensures
            epoch == NativeRouteEpoch(value),
    {
        NativeRouteEpoch(value)
    }

    /// The number of this epoch.
    pub fn into_inner(self) -> (value: u64)
        ensures
            value == self.0,
    {
        self.0
    }

    /// The following epoch, or `None` where the numbers are used up.
    pub fn checked_next(self) -> (next: Option<Self>)
        ensures
            next == (if self.0 < u64::MAX {
                Some(NativeRouteEpoch((self.0 + 1) as u64))
            } else {
                None
            }),
    {
        match self.0.checked_add(1) {
            Some(value) => Some(NativeRouteEpoch(value)),
            None => None,
        }
    }
}

impl Default for NativeRouteEpoch {
    fn default() -> (epoch: Self)
        ensures
            epoch == NativeRouteEpoch(0),
    {
        NativeRouteEpoch(0)
    }
}

/// The epochs that [`NativeRouteEpoch::checked_next`] hands out are strictly increasing: from one
/// epoch to the next the number grows by one, so no epoch comes twice.
pub proof fn law_next_epoch_is_later(epoch: NativeRouteEpoch, next: NativeRouteEpoch)
    requires
        epoch.0 < u64::MAX,
        next == NativeRouteEpoch((epoch.0 + 1) as u64),
    ensures
        next.0 > epoch.0,
        next != epoch,
{
}

} // verus!
