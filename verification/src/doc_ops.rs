//! Operations on a shared map of a collaborative document, picked by kind.

use vstd::prelude::*;
use lib0::any::Any;
use yrs::types::map::MapPrelim;
use yrs::types::Value;
use yrs::{
    ArrayRef, Doc, MapRef, ReadTxn, TextRef, Transact, TransactionMut, XmlElementRef,
    XmlFragmentRef, XmlTextRef,
};

verus! {

/// A collaborative document.
#[verifier::external_type_specification]
#[verifier::external_body]
pub struct ExDoc(Doc);

/// A read-write transaction on a collaborative document.
#[verifier::external_type_specification]
#[verifier::external_body]
pub struct ExTransactionMut<'doc>(TransactionMut<'doc>);

/// A shared map of a collaborative document.
#[verifier::external_type_specification]
#[verifier::external_body]
pub struct ExMapRef(MapRef);

/// A shared array of a collaborative document.
#[verifier::external_type_specification]
#[verifier::external_body]
pub struct ExArrayRef(ArrayRef);

/// A shared text of a collaborative document.
#[verifier::external_type_specification]
#[verifier::external_body]
pub struct ExTextRef(TextRef);

/// A shared XML element of a collaborative document.
#[verifier::external_type_specification]
#[verifier::external_body]
pub struct ExXmlElementRef(XmlElementRef);

/// A shared XML fragment of a collaborative document.
#[verifier::external_type_specification]
#[verifier::external_body]
pub struct ExXmlFragmentRef(XmlFragmentRef);

/// A shared XML text of a collaborative document.
#[verifier::external_type_specification]
#[verifier::external_body]
pub struct ExXmlTextRef(XmlTextRef);

/// The kinds of operation on a shared map.
#[derive(Clone, Copy, PartialEq, Eq, Structural, Hash, Debug)]
pub enum MapOpType {
    Insert,
    Remove,
    Clear,
    InsertNestType,
}

/// The arguments of an operation on a shared map.
pub struct MapOpParams {
    pub key: Option<String>,
    pub value: Option<String>,
}

impl Default for MapOpParams {
    fn default() -> (params: MapOpParams)
        ensures
            params.key is None,
            params.value is None,
    {
        MapOpParams { key: None, value: None }
    }
}

/// A nested shared type that an operation can produce.
pub enum YrsNestType {
    Array(ArrayRef),
    YMap(MapRef),
    Text(TextRef),
    XMLElement(XmlElementRef),
    XMLFragment(XmlFragmentRef),
    XMLText(XmlTextRef),
}

/// An operation on a collaborative document.
#[derive(Clone, Copy, PartialEq, Eq, Structural, Debug)]
pub enum OpType {
    YrsMap(MapOpType),
}

/// Why an operation on a shared map was not run.
#[derive(Clone, Copy, PartialEq, Eq, Structural, Debug)]
pub enum MapOpError {
    /// No operation of this kind is registered.
    Unsupported,
    /// Another transaction on the document is open.
    TransactionBusy,
}

/// What a shared map holds under a key, as `Map::get` gives it back.
pub enum SharedValue {
    /// A nested shared map.
    Nested(MapRef),
    /// A string.
    Text(Seq<char>),
    /// A value of another kind.
    Other,
}

/// The entries of `map` as seen in the open transaction `txn`: for each key, what
/// `Map::get` gives back.
pub uninterp spec fn shared_entries(txn: TransactionMut, map: MapRef) -> Map<Seq<char>, SharedValue>;

/// Whether `map` is live in the open transaction `txn`: a root type, or a shared type
/// whose item in its parent is not deleted (deleting an item deletes everything under it).
pub uninterp spec fn live(txn: TransactionMut, map: MapRef) -> bool;

/// Whether `map` is a shared type of the document on which `txn` is open. It depends on
/// that document only, not on the state of the transaction.
pub uninterp spec fn in_document(txn: TransactionMut, map: MapRef) -> bool;

/// Whether `map` is a shared type of `doc`.
pub uninterp spec fn of_document(doc: Doc, map: MapRef) -> bool;

/// Whether the shared map `y` lies inside the shared map `x`: `x` holds, directly or at
/// any depth, the value in which `y` was made. A shared type never moves, so this holds
/// or fails for good.
pub uninterp spec fn under(y: MapRef, x: MapRef) -> bool;

/// The maps that lie inside `m` are those inside its parent `parent`, and the parent.
pub open spec fn child_of(m: MapRef, parent: MapRef) -> bool {
    forall|z: MapRef| #[trigger] under(m, z) <==> (z == parent || under(parent, z))
}

/// A change of the map `x` has left every map outside `x` as it was: as live as before,
/// with the same entries.
pub open spec fn outside_unchanged(before: TransactionMut, after: TransactionMut, x: MapRef) -> bool {
    forall|y: MapRef|
        #![trigger live(after, y)]
        #![trigger shared_entries(after, y)]
        y != x && !under(y, x) ==> live(after, y) == live(before, y) && shared_entries(after, y)
            == shared_entries(before, y)
}

/// The root map that `ReadTxn::get_map` gives for `name` in the transaction `txn`.
pub uninterp spec fn shared_root(txn: TransactionMut, name: Seq<char>) -> Option<MapRef>;

/// A shared map without entries.
pub open spec fn no_entries() -> Map<Seq<char>, SharedValue> {
    Map::empty()
}

/// Two states of one transaction: it is open on the same document, with the same root
/// types.
pub open spec fn same_document(before: TransactionMut, after: TransactionMut) -> bool {
    &&& forall|m: MapRef| #[trigger] in_document(after, m) == in_document(before, m)
    &&& forall|n: Seq<char>| #[trigger] shared_root(after, n) == shared_root(before, n)
}

/// An entry whose replacement or removal deletes no shared type: nothing, or a string.
pub open spec fn displaces_nothing(v: Option<SharedValue>) -> bool {
    v is None || v matches Some(SharedValue::Text(_))
}

/// Entries that are all strings.
pub open spec fn holds_only_text(e: Map<Seq<char>, SharedValue>) -> bool {
    forall|k: Seq<char>| #[trigger] e.contains_key(k) ==> e[k] is Text
}

/// A change of the map `x` (that may have made the map `fresh`) has left every other
/// map that is still live as it was: live before, with the same entries. (Maps under a
/// deleted entry are no longer live.)
pub open spec fn survivors_kept(
    before: TransactionMut,
    after: TransactionMut,
    x: MapRef,
    fresh: MapRef,
) -> bool {
    forall|y: MapRef|
        #![trigger live(after, y)]
        y != x && y != fresh && live(after, y) ==> live(before, y) && shared_entries(after, y)
            == shared_entries(before, y)
}

/// A change of the map `x` (that may have made the map `fresh`) has left every other map
/// as it was: as live as before, with the same entries.
pub open spec fn others_unchanged(
    before: TransactionMut,
    after: TransactionMut,
    x: MapRef,
    fresh: MapRef,
) -> bool {
    forall|y: MapRef|
        #![trigger live(after, y)]
        #![trigger shared_entries(after, y)]
        y != x && y != fresh ==> live(after, y) == live(before, y) && shared_entries(after, y)
            == shared_entries(before, y)
}

/// What a shared map holds under a key, in executable form.
pub enum SharedEntry {
    Absent,
    Nested(MapRef),
    Text(String),
    Other,
}

/// The entry that a [`SharedEntry`] stands for.
pub open spec fn entry_value(e: SharedEntry) -> Option<SharedValue> {
    match e {
        SharedEntry::Absent => None,
        SharedEntry::Nested(m) => Some(SharedValue::Nested(m)),
        SharedEntry::Text(t) => Some(SharedValue::Text(t@)),
        SharedEntry::Other => Some(SharedValue::Other),
    }
}

/// Opens a read-write transaction on `doc` with `Transact::try_transact_mut`; `None` when
/// another transaction on the document is open, which depends on the document's state
/// and is not stated. The transaction is open on `doc`.
#[verifier::external_body]
fn begin_transaction<'doc>(doc: &'doc Doc) -> (txn: Option<TransactionMut<'doc>>)
    ensures
        txn matches Some(t) ==> forall|m: MapRef| #[trigger] in_document(t, m) == of_document(*doc, m),
{
    doc.try_transact_mut().ok()
}

/// The root map of `txn`'s document named `name`, with `ReadTxn::get_map`; `None` when
/// the document defines no root type of that name. Root types are always live.
#[verifier::external_body]
pub(crate) fn shared_root_map(txn: &TransactionMut, name: &str) -> (root: Option<MapRef>)
    ensures
        root == shared_root(*txn, name@),
        root matches Some(r) ==> in_document(*txn, r) && live(*txn, r),
        root matches Some(r) ==> forall|z: MapRef| !#[trigger] under(r, z),
{
    txn.get_map(name)
}

/// What `map` holds under `key`, with `Map::get`, told apart by kind. A nested map that
/// it gives back sits in a non-deleted item, is not `map` itself, and is held under no
/// other key of `map` (each shared type has one item).
#[verifier::external_body]
pub(crate) fn shared_get(map: &MapRef, txn: &TransactionMut, key: &str) -> (entry: SharedEntry)
    requires
        in_document(*txn, *map),
    ensures
        entry_value(entry) == shared_entries(*txn, *map).get(key@),
        entry matches SharedEntry::Nested(m) ==> {
            &&& in_document(*txn, m)
            &&& live(*txn, m)
            &&& m != *map
            &&& child_of(m, *map)
            &&& forall|k: Seq<char>|
                k != key@ ==> #[trigger] shared_entries(*txn, *map).get(k) != Some(
                    SharedValue::Nested(m),
                )
        },
{
    match yrs::types::map::Map::get(map, txn, key) {
        None => SharedEntry::Absent,
        Some(Value::YMap(m)) => SharedEntry::Nested(m),
        Some(Value::Any(Any::String(t))) => SharedEntry::Text(t.to_string()),
        Some(_) => SharedEntry::Other,
    }
}

/// Puts the string `value` under `key` of `map`, with `Map::insert`. What follows is
/// stated for a live `map` only: an item put into a deleted parent is deleted.
#[verifier::external_body]
fn shared_insert_text(map: &MapRef, txn: &mut TransactionMut, key: String, value: String)
    requires
        in_document(*old(txn), *map),
    ensures
        same_document(*old(txn), *final(txn)),
        live(*final(txn), *map) == live(*old(txn), *map),
        outside_unchanged(*old(txn), *final(txn), *map),
        live(*old(txn), *map) ==> shared_entries(*final(txn), *map) == shared_entries(
            *old(txn),
            *map,
        ).insert(key@, SharedValue::Text(value@)),
        live(*old(txn), *map) ==> survivors_kept(*old(txn), *final(txn), *map, *map),
        live(*old(txn), *map) && displaces_nothing(shared_entries(*old(txn), *map).get(key@))
            ==> others_unchanged(*old(txn), *final(txn), *map, *map),
{
    yrs::types::map::Map::insert(map, txn, key, value);
}

/// Puts an empty nested map under `key` of `map`, with `Map::insert` of an empty
/// `MapPrelim`, and gives the new map back. What follows is stated for a live `map`
/// only, except that the new map is new.
#[verifier::external_body]
pub(crate) fn shared_insert_map(map: &MapRef, txn: &mut TransactionMut, key: &str) -> (nested: MapRef)
    requires
        in_document(*old(txn), *map),
    ensures
        same_document(*old(txn), *final(txn)),
        in_document(*final(txn), nested),
        !live(*old(txn), nested),
        child_of(nested, *map),
        live(*final(txn), *map) == live(*old(txn), *map),
        outside_unchanged(*old(txn), *final(txn), *map),
        live(*old(txn), *map) ==> live(*final(txn), nested) && shared_entries(*final(txn), nested)
            == no_entries(),
        live(*old(txn), *map) ==> shared_entries(*final(txn), *map) == shared_entries(
            *old(txn),
            *map,
        ).insert(key@, SharedValue::Nested(nested)),
        live(*old(txn), *map) ==> survivors_kept(*old(txn), *final(txn), *map, nested),
        live(*old(txn), *map) && displaces_nothing(shared_entries(*old(txn), *map).get(key@))
            ==> others_unchanged(*old(txn), *final(txn), *map, nested),
{
    yrs::types::map::Map::insert(map, txn, key, MapPrelim::<Any>::new())
}

/// Removes the entry under `key` of `map`, with `Map::remove`, and tells whether there
/// was one. The other maps are stated for a live `map` only.
#[verifier::external_body]
pub(crate) fn shared_remove(map: &MapRef, txn: &mut TransactionMut, key: &str) -> (removed: bool)
    requires
        in_document(*old(txn), *map),
    ensures
        same_document(*old(txn), *final(txn)),
        live(*final(txn), *map) == live(*old(txn), *map),
        outside_unchanged(*old(txn), *final(txn), *map),
        removed == shared_entries(*old(txn), *map).contains_key(key@),
        shared_entries(*final(txn), *map) == shared_entries(*old(txn), *map).remove(key@),
        live(*old(txn), *map) ==> survivors_kept(*old(txn), *final(txn), *map, *map),
        live(*old(txn), *map) && displaces_nothing(shared_entries(*old(txn), *map).get(key@))
            ==> others_unchanged(*old(txn), *final(txn), *map, *map),
{
    yrs::types::map::Map::remove(map, txn, key).is_some()
}

/// Removes every entry of `map`, with `Map::clear`. The other maps are stated for a live
/// `map` only.
#[verifier::external_body]
fn shared_clear(map: &MapRef, txn: &mut TransactionMut)
    requires
        in_document(*old(txn), *map),
    ensures
        same_document(*old(txn), *final(txn)),
        live(*final(txn), *map) == live(*old(txn), *map),
        outside_unchanged(*old(txn), *final(txn), *map),
        shared_entries(*final(txn), *map) == no_entries(),
        live(*old(txn), *map) ==> survivors_kept(*old(txn), *final(txn), *map, *map),
        live(*old(txn), *map) && holds_only_text(shared_entries(*old(txn), *map))
            ==> others_unchanged(*old(txn), *final(txn), *map, *map),
{
    yrs::types::map::Map::clear(map, txn);
}

/// The root map of `doc` named `name`, looked up in a transaction of its own, which is
/// given back as a ghost value; no transaction and no map when another transaction on the
/// document is open.
pub fn root_map<'a>(doc: &'a Doc, name: &str) -> (res: (Option<MapRef>, Ghost<Option<TransactionMut<'a>>>))
    ensures
        res.1@ is None ==> res.0 is None,
        res.1@ matches Some(t) ==> res.0 == shared_root(t, name@),
        res.0 matches Some(r) ==> of_document(*doc, r),
{
    match begin_transaction(doc) {
        None => (None, Ghost(None)),
        Some(txn) => {
            let ghost t = txn;
            (shared_root_map(&txn, name), Ghost(Some(t)))
        },
    }
}

/// The table of operations that can be run on a shared map.
pub struct YrsMapOps {
    ops: Vec<MapOpType>,
}

impl YrsMapOps {
    /// The table holds insertion, removal and clearing, and nothing else.
    #[verifier::type_invariant]
    closed spec fn well_formed(&self) -> bool {
        self.ops@ =~= seq![MapOpType::Insert, MapOpType::Remove, MapOpType::Clear]
    }

    /// The kinds of operation registered, in the order of registration.
    pub closed spec fn registered(&self) -> Seq<MapOpType> {
        self.ops@
    }

    /// The table with insertion, removal and clearing registered.
    pub fn new() -> (table: YrsMapOps)
        ensures
            table.registered() == seq![MapOpType::Insert, MapOpType::Remove, MapOpType::Clear],
    {
        let mut ops: Vec<MapOpType> = Vec::new();
        ops.push(MapOpType::Insert);
        ops.push(MapOpType::Remove);
        ops.push(MapOpType::Clear);
        assert(ops@ =~= seq![MapOpType::Insert, MapOpType::Remove, MapOpType::Clear]);
        YrsMapOps { ops }
    }

    /// Whether an operation of this kind is registered.
    pub fn supports(&self, op: MapOpType) -> (found: bool)
        ensures
            found == self.registered().contains(op),
    {
        let mut i: usize = 0;
        while i < self.ops.len()
            invariant
                i <= self.ops@.len(),
                forall|j: int| 0 <= j < i ==> self.ops@[j] != op,
            decreases self.ops.len() - i,
        {
            if self.ops[i] == op {
                assert(self.ops@[i as int] == op);
                return true;
            }
            i = i + 1;
        }
        false
    }

    /// The entries of a shared map after the operation `op` with `params` on entries `e`.
    pub open spec fn after_op(e: Map<Seq<char>, SharedValue>, op: MapOpType, params: MapOpParams) -> Map<
        Seq<char>,
        SharedValue,
    > {
        match op {
            MapOpType::Insert => e.insert(
                params.key->0@,
                SharedValue::Text(params.value->0@),
            ),
            MapOpType::Remove => e.remove(params.key->0@),
            MapOpType::Clear => no_entries(),
            MapOpType::InsertNestType => e,
        }
    }

    /// The operation `op` with `params` on entries `e` deletes no shared type.
    pub open spec fn op_displaces_nothing(
        e: Map<Seq<char>, SharedValue>,
        op: MapOpType,
        params: MapOpParams,
    ) -> bool {
        match op {
            MapOpType::Insert => displaces_nothing(e.get(params.key->0@)),
            MapOpType::Remove => displaces_nothing(e.get(params.key->0@)),
            MapOpType::Clear => holds_only_text(e),
            MapOpType::InsertNestType => true,
        }
    }

    /// What the operation `op` with `params` did to `map`, going from `before` to `after`:
    /// removal and clearing act on any map; insertion is stated for a live map (an item
    /// put into a deleted parent is deleted). Maps outside `map` are left as they were;
    /// inside it, the maps that stay live keep their entries, and all do when no shared
    /// type was deleted.
    pub open spec fn op_effect(
        before: TransactionMut,
        after: TransactionMut,
        map: MapRef,
        op: MapOpType,
        params: MapOpParams,
    ) -> bool {
        &&& same_document(before, after)
        &&& live(after, map) == live(before, map)
        &&& outside_unchanged(before, after, map)
        &&& (op != MapOpType::Insert || live(before, map)) ==> shared_entries(after, map)
            == Self::after_op(shared_entries(before, map), op, params)
        &&& live(before, map) ==> survivors_kept(before, after, map, map)
        &&& live(before, map) && Self::op_displaces_nothing(shared_entries(before, map), op, params)
            ==> others_unchanged(before, after, map, map)
    }

    /// Runs the registered operation `op` with `params` on `map` in the transaction `txn`:
    /// insertion of the string `value` under `key`, removal of `key`, or clearing. None of
    /// them produces a nested type.
    pub fn apply_in(
        &self,
        txn: &mut TransactionMut,
        map: &MapRef,
        op: MapOpType,
        params: MapOpParams,
    ) -> (nested: Option<YrsNestType>)
        requires
            self.registered().contains(op),
            in_document(*old(txn), *map),
            op == MapOpType::Insert ==> params.key is Some && params.value is Some,
            op == MapOpType::Remove ==> params.key is Some,
        ensures
            nested is None,
            Self::op_effect(*old(txn), *final(txn), *map, op, params),
    {
        proof {
            use_type_invariant(self);
            assert(op != MapOpType::InsertNestType) by {
                if op == MapOpType::InsertNestType {
                    let i = choose|i: int| 0 <= i < self.registered().len() && self.registered()[i] == op;
                    assert(self.registered()[i] == op);
                }
            }
        }
        match op {
            MapOpType::Insert => {
                let key = params.key.unwrap();
                let value = params.value.unwrap();
                shared_insert_text(map, txn, key, value);
            },
            MapOpType::Remove => {
                let key = params.key.unwrap();
                let _ = shared_remove(map, txn, key.as_str());
            },
            _ => {
                shared_clear(map, txn);
            },
        }
        None
    }

    /// Runs the operation `op` with `params` on `map` of `doc`, in a transaction of its
    /// own that is committed when it returns. The transaction is given back as a ghost
    /// value, before and after the operation: see [`YrsMapOps::op_effect`] for what each
    /// operation did.
    pub fn apply<'a>(&self, doc: &'a Doc, map: &MapRef, op: MapOpType, params: MapOpParams) -> (res: (
        Result<Option<YrsNestType>, MapOpError>,
        Ghost<Option<(TransactionMut<'a>, TransactionMut<'a>)>>,
    ))
        requires
            of_document(*doc, *map),
            op == MapOpType::Insert ==> params.key is Some && params.value is Some,
            op == MapOpType::Remove ==> params.key is Some,
        ensures
            res.0 matches Err(MapOpError::Unsupported) <==> !self.registered().contains(op),
            res.0 is Ok ==> res.0 matches Ok(None),
            res.0 is Err && self.registered().contains(op) ==> res.0 matches Err(
                MapOpError::TransactionBusy,
            ),
            res.0 is Ok <==> res.1@ is Some,
            res.1@ matches Some(states) ==> in_document(states.0, *map) && Self::op_effect(
                states.0,
                states.1,
                *map,
                op,
                params,
            ),
    {
        if !self.supports(op) {
            return (Err(MapOpError::Unsupported), Ghost(None));
        }
        match begin_transaction(doc) {
            None => (Err(MapOpError::TransactionBusy), Ghost(None)),
            Some(mut txn) => {
                let ghost before = txn;
                let nested = self.apply_in(&mut txn, map, op, params);
                let ghost after = txn;
                (Ok(nested), Ghost(Some((before, after))))
            },
        }
    }
}

/// After an insertion of the string `value` under `key` in a live map, the map holds its
/// old entries with `key` now reading exactly `value`; every other key reads as before.
pub proof fn law_insert_stores_the_value(
    before: TransactionMut,
    after: TransactionMut,
    map: MapRef,
    key: String,
    value: String,
)
    requires
        YrsMapOps::op_effect(
            before,
            after,
            map,
            MapOpType::Insert,
            (MapOpParams { key: Some(key), value: Some(value) }),
        ),
        live(before, map),
    ensures
        shared_entries(after, map) == shared_entries(before, map).insert(
            key@,
            SharedValue::Text(value@),
        ),
        shared_entries(after, map).get(key@) == Some(SharedValue::Text(value@)),
        forall|k: Seq<char>|
            k != key@ ==> #[trigger] shared_entries(after, map).get(k) == shared_entries(
                before,
                map,
            ).get(k),
{
}

/// After a removal of `key`, the map holds its old entries without `key`: `key` reads
/// nothing, every other key reads as before.
pub proof fn law_remove_drops_the_key(
    before: TransactionMut,
    after: TransactionMut,
    map: MapRef,
    key: String,
    value: Option<String>,
)
    requires
        YrsMapOps::op_effect(
            before,
            after,
            map,
            MapOpType::Remove,
            (MapOpParams { key: Some(key), value: value }),
        ),
    ensures
        shared_entries(after, map) == shared_entries(before, map).remove(key@),
        !shared_entries(after, map).contains_key(key@),
        forall|k: Seq<char>|
            k != key@ ==> #[trigger] shared_entries(after, map).get(k) == shared_entries(
                before,
                map,
            ).get(k),
{
}

/// After clearing, whatever the arguments, the map holds no entry.
pub proof fn law_clear_empties_the_map(
    before: TransactionMut,
    after: TransactionMut,
    map: MapRef,
    params: MapOpParams,
)
    requires
        YrsMapOps::op_effect(before, after, map, MapOpType::Clear, params),
    ensures
        forall|k: Seq<char>| !#[trigger] shared_entries(after, map).contains_key(k),
        shared_entries(after, map).dom().len() == 0,
{
    assert(shared_entries(after, map).dom() =~= Set::<Seq<char>>::empty());
}

/// Any operation leaves every map outside the map it acts on as it was.
pub proof fn law_operations_stay_inside_their_map(
    before: TransactionMut,
    after: TransactionMut,
    map: MapRef,
    op: MapOpType,
    params: MapOpParams,
    other: MapRef,
)
    requires
        YrsMapOps::op_effect(before, after, map, op, params),
        other != map,
        !under(other, map),
    ensures
        shared_entries(after, other) == shared_entries(before, other),
        live(after, other) == live(before, other),
{
}

} // verus!
