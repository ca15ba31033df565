//! A validated key/value entry with a generated unique identifier.

use vstd::prelude::*;
use vstd::string::StringExecFns;
use vstd::utf8::encode_utf8;
use crate::value::{sp_render_value, Value, ValueView};
use crate::{MAX_KEY_LEN, MAX_VALUE_LEN};

verus! {

/// Why an entry could not be constructed.
#[derive(Debug, PartialEq, Eq, Structural)]
pub enum NewItemError {
    InvalidKeyLen,
    InvalidValueLen,
}

/// One key/value entry. Immutable after construction; `uuid` is generated
/// fresh by `Item::new` and is never the nil (all-zero) identifier.
#[derive(Debug)]
pub struct Item {
    pub key: String,
    pub value: Value,
    pub uuid: u128,
}

/// Mathematical model of an `Item`.
#[verifier::ext_equal]
pub struct ItemView {
    pub key: Seq<char>,
    pub value: ValueView,
    pub uuid: u128,
}

impl View for Item {
    type V = ItemView;

    open spec fn view(&self) -> ItemView {
        ItemView { key: self.key@, value: self.value@, uuid: self.uuid }
    }
}

/// Relies on `uuid::Uuid::new_v4` (read out through `Uuid::as_u128`): a
/// freshly generated random version-4 UUID. Its version and variant bits are
/// always set, so the value is never zero (never the nil UUID).
#[verifier::external_body]
fn fresh_id() -> (r: u128)
    ensures
        r != 0,
{
    uuid::Uuid::new_v4().as_u128()
}

impl Clone for Item {
    /// A clone is a snapshot: same key, value and identifier.
    fn clone(&self) -> (r: Item)
        ensures
            r@ == self@,
    {
        Item { key: self.key.clone(), value: self.value.clone(), uuid: self.uuid }
    }
}

/// True when the value is text whose encoding exceeds the allowed length.
pub open spec fn text_too_long(v: ValueView) -> bool {
    match v {
        ValueView::Text(t) => encode_utf8(t).len() > MAX_VALUE_LEN,
        _ => false,
    }
}

impl Item {
    /// Validates the length invariants, then allocates a fresh identifier.
    pub fn new(key: String, value: Value) -> (r: Result<Item, NewItemError>)
        ensures
            encode_utf8(key@).len() > MAX_KEY_LEN ==> r == Err::<Item, NewItemError>(
                NewItemError::InvalidKeyLen,
            ),
            encode_utf8(key@).len() <= MAX_KEY_LEN && text_too_long(value@) ==> r == Err::<
                Item,
                NewItemError,
            >(NewItemError::InvalidValueLen),
            encode_utf8(key@).len() <= MAX_KEY_LEN && !text_too_long(value@) ==> (r matches Ok(it)
                && it@.key == key@ && it@.value == value@ && it@.uuid != 0),
    {
        if key.as_str().as_bytes().len() > MAX_KEY_LEN {
            return Err(NewItemError::InvalidKeyLen);
        }
        if let Value::Text(s) = &value {
            if s.as_str().as_bytes().len() > MAX_VALUE_LEN {
                return Err(NewItemError::InvalidValueLen);
            }
        }
        let id = fresh_id();
        Ok(Item { key, value, uuid: id })
    }

    /// Renders the canonical single-pair text `{"<key>":"<value>"}`.
    pub fn render(&self) -> (r: String)
        ensures
            r@ == sp_render_item(self@),
    {
        let mut s = "{\"".to_owned();
        s.append(self.key.as_str());
        s.append("\":\"");
        let v = self.value.render();
        s.append(v.as_str());
        s.append("\"}");
        proof {
            assert(s@ =~= sp_render_item(self@));
        }
        s
    }
}

/// The canonical single-pair diagnostic text of an entry.
pub open spec fn sp_render_item(it: ItemView) -> Seq<char> {
    "{\""@ + it.key + "\":\""@ + sp_render_value(it.value) + "\"}"@
}

} // verus!
