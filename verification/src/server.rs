//! The dispatcher: the sole owner and mutator of the pack, fed by an
//! inbound command channel and reporting on an outbound outcome channel.
//! The TCP front end around it lives outside this library; it hands the
//! dispatcher parsed commands and renders the outcomes.

use vstd::prelude::*;
use vstd::string::StringExecFns;
use crate::channel::{channel_recv, channel_send};
use crate::events::{EventView, InfoView, InformativeEvent, TransmitterEvent};
use crate::pack::{spec_add, spec_find, lemma_add_preserves_wf, pack_wf, Pack, PackState, PackView};
use crate::item::ItemView;
use crate::strutil::{dec_chars, u64_to_string};
use crate::MAX_ITEM;

verus! {

broadcast use vstd::string::group_string_axioms;

/// The dispatcher's decision on one inbound command: the pack afterwards,
/// and the outcome to emit. An insert is attempted exactly as `Pack::add`
/// does it, except that the attempt counter stops at its machine bound; a
/// lookup leaves the pack untouched.
pub open spec fn spec_apply(p: PackView, ev: EventView) -> (PackView, InfoView) {
    match ev {
        EventView::AddNewItem(it) => {
            if p.head + 1 <= MAX_ITEM {
                (spec_add(p, it).0, InfoView::Added(it.uuid))
            } else {
                (
                    PackView {
                        id: p.id,
                        items: p.items,
                        head: if p.head < 65535 {
                            p.head + 1
                        } else {
                            p.head
                        },
                    },
                    InfoView::CapacityFull,
                )
            }
        },
        EventView::GetItem(k) => (
            p,
            match spec_find(p.items, k) {
                Some(it) => InfoView::Found(it),
                None => InfoView::NotFound,
            },
        ),
    }
}

/// Applies one inbound command to the pack and yields the outcome to emit:
/// `Added` or `CapacityFull` for an insert, `Found` (with a snapshot) or
/// `NotFound` for a lookup.
pub fn apply_event(pack: &mut Pack, event: TransmitterEvent) -> (r: InformativeEvent)
    ensures
        final(pack)@ == spec_apply(old(pack)@, event@).0,
        r@ == spec_apply(old(pack)@, event@).1,
{
    match event {
        TransmitterEvent::AddNewItem(c) => {
            if pack.head < 65535 {
                match pack.add(c.object) {
                    Some(PackState::Added(u)) => InformativeEvent::Added(u),
                    _ => InformativeEvent::CapacityFull,
                }
            } else {
                InformativeEvent::CapacityFull
            }
        },
        TransmitterEvent::GetItem(s) => {
            match pack.get(s.key.as_str()) {
                Some(item) => InformativeEvent::Found(item.clone()),
                None => InformativeEvent::NotFound,
            }
        },
    }
}

/// The dispatcher's step keeps the pack's identity and shape.
pub proof fn lemma_apply_preserves_wf(p: PackView, ev: EventView)
    ensures
        spec_apply(p, ev).0.id == p.id,
        pack_wf(p) ==> pack_wf(spec_apply(p, ev).0),
{
    match ev {
        EventView::AddNewItem(it) => {
            if pack_wf(p) {
                lemma_add_preserves_wf(p, it);
            }
        },
        EventView::GetItem(_) => {},
    }
}

/// Submitting an insert of a fresh key and then a lookup of that key, in
/// that order, always observes the inserted entry: the insert is reported
/// `Added` with the entry's identifier and the lookup `Found` with the
/// entry itself, never `NotFound`. This needs room in the pack and a key
/// not stored yet; a full pack rejects the insert, and an older entry under
/// the same key would shadow the new one.
pub proof fn lemma_dispatch_add_then_get(p: PackView, item: ItemView)
    requires
        p.head + 1 <= MAX_ITEM,
        spec_find(p.items, item.key) is None,
    ensures
        spec_apply(p, EventView::AddNewItem(item)).1 == InfoView::Added(item.uuid),
        spec_apply(
            spec_apply(p, EventView::AddNewItem(item)).0,
            EventView::GetItem(item.key),
        ).1 == InfoView::Found(item),
{
    let p1 = spec_apply(p, EventView::AddNewItem(item)).0;
    assert(p1.items == p.items.push(item));
    crate::pack::lemma_find_push(p.items, item, item.key);
    assert(spec_find(p1.items, item.key) == Some(item));
}

/// One bounded burst of the dispatch loop: receives up to `budget` inbound
/// commands, applies each in arrival order to the pack it exclusively
/// owns, and emits one outcome per command. It reports whether the caller
/// should keep going: `false` once the inbound channel is closed and
/// drained, or once an outcome can no longer be delivered. The caller runs
/// bursts back to back for the process lifetime. Whatever arrives, the
/// pack keeps its identity and shape.
pub fn pack_worker_burst(
    events: &crossbeam::channel::Receiver<TransmitterEvent>,
    informative: &crossbeam::channel::Sender<InformativeEvent>,
    pack: &mut Pack,
    budget: usize,
) -> (keep_going: bool)
    ensures
        final(pack)@.id == old(pack)@.id,
        pack_wf(old(pack)@) ==> pack_wf(final(pack)@),
{
    let mut left = budget;
    while left > 0
        invariant
            pack@.id == old(pack)@.id,
            pack_wf(old(pack)@) ==> pack_wf(pack@),
        decreases left,
    {
        left = left - 1;
        match channel_recv(events) {
            Some(event) => {
                proof {
                    lemma_apply_preserves_wf(pack@, event@);
                }
                let out = apply_event(pack, event);
                if !channel_send(informative, out) {
                    return false;
                }
            },
            None => {
                return false;
            },
        }
    }
    true
}

/// Waits for the dispatcher's next outcome: `None` once the outcome
/// channel is closed and drained, which signals that the dispatcher has
/// stopped. Which outcome arrives is decided by the dispatcher alone.
pub fn await_outcome(informative: &crossbeam::channel::Receiver<InformativeEvent>) -> Option<
    InformativeEvent,
> {
    channel_recv(informative)
}

/// A status code of the textual response line.
#[derive(Debug, Clone, Copy, PartialEq, Eq, Structural)]
pub enum Code {
    Success,
    Error,
}

impl Code {
    /// The numeric value carried by the code.
    pub fn number(&self) -> (r: u16)
        ensures
            *self == Code::Success ==> r == 200,
            *self == Code::Error ==> r == 400,
    {
        match self {
            Code::Success => 200,
            Code::Error => 400,
        }
    }

    /// The status text for the code.
    pub fn render(&self) -> (r: String)
        ensures
            *self == Code::Success ==> r@ == "200 Success"@,
            *self == Code::Error ==> r@ == "400 Error"@,
    {
        match self {
            Code::Success => "200 Success".to_owned(),
            Code::Error => "400 Error".to_owned(),
        }
    }
}

/// One response to be written back over the transport.
pub struct Response {
    code: Code,
}

impl Response {
    /// The status code this response carries.
    pub closed spec fn spec_code(&self) -> Code {
        self.code
    }

    /// Wraps a status code.
    pub fn new(code: Code) -> (r: Response)
        ensures
            r.spec_code() == code,
    {
        Response { code }
    }

    /// The full response line, delimiter and line ending included. The
    /// transport write itself happens outside this library.
    pub fn render_line(&self) -> (r: String)
        ensures
            self.spec_code() == Code::Success ==> r@ == "200 Success|\r\n"@,
            self.spec_code() == Code::Error ==> r@ == "400 Error|\r\n"@,
    {
        let mut s = self.code.render();
        s.append("|\r\n");
        proof {
            reveal_strlit("200 Success");
            reveal_strlit("400 Error");
            reveal_strlit("|\r\n");
            reveal_strlit("200 Success|\r\n");
            reveal_strlit("400 Error|\r\n");
            if self.code == Code::Success {
                assert(s@ =~= "200 Success|\r\n"@);
            } else {
                assert(s@ =~= "400 Error|\r\n"@);
            }
        }
        s
    }
}

/// The basic information of the TCP front end: where it listens.
pub struct Server {
    root: String,
    port: u16,
}

impl Server {
    /// The host text the front end binds.
    pub closed spec fn spec_root(&self) -> Seq<char> {
        self.root@
    }

    /// The port the front end binds.
    pub closed spec fn spec_port(&self) -> u16 {
        self.port
    }

    /// Creates a new server descriptor.
    pub fn new(root: &str, port: u16) -> (r: Server)
        ensures
            r.spec_root() == root@,
            r.spec_port() == port,
    {
        Server { root: root.to_owned(), port }
    }

    /// The `root:port` text the front end binds.
    pub fn address(&self) -> (r: String)
        ensures
            r@ == self.spec_root() + seq![':'] + dec_chars(self.spec_port() as int),
    {
        let mut s = self.root.clone();
        s.append(":");
        let port_text = u64_to_string(self.port as u64);
        s.append(port_text.as_str());
        proof {
            reveal_strlit(":");
            assert(s@ =~= self.root@ + seq![':'] + dec_chars(self.port as int));
        }
        s
    }
}

} // verus!
