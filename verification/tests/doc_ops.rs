use jwst_sync::doc_ops::{MapOpError, MapOpParams, MapOpType, OpType, YrsMapOps};
use jwst_sync::workspace::Workspace;
use yrs::types::map::Map as SharedMap;
use yrs::{Doc, Transact};

#[test]
fn registered_operations() {
    let ops = YrsMapOps::new();
    assert!(ops.supports(MapOpType::Insert));
    assert!(ops.supports(MapOpType::Remove));
    assert!(ops.supports(MapOpType::Clear));
    assert!(!ops.supports(MapOpType::InsertNestType));
    let op = OpType::YrsMap(MapOpType::Clear);
    assert_eq!(op, OpType::YrsMap(MapOpType::Clear));
}

#[test]
fn insert_remove_clear_on_a_shared_map() {
    let doc = Doc::new();
    let map = doc.get_or_insert_map("m");
    let ops = YrsMapOps::new();
    let (r, _) = ops.apply(
        &doc,
        &map,
        MapOpType::Insert,
        MapOpParams { key: Some("a".to_string()), value: Some("1".to_string()) },
    );
    assert!(matches!(r, Ok(None)));
    let (r, _) = ops.apply(
        &doc,
        &map,
        MapOpType::Insert,
        MapOpParams { key: Some("b".to_string()), value: Some("2".to_string()) },
    );
    assert!(matches!(r, Ok(None)));
    {
        let txn = doc.transact();
        assert_eq!(map.len(&txn), 2);
        assert_eq!(map.get(&txn, "a").unwrap().to_string(&txn), "1");
    }
    let (r, _) = ops.apply(
        &doc,
        &map,
        MapOpType::Remove,
        MapOpParams { key: Some("a".to_string()), value: None },
    );
    assert!(matches!(r, Ok(None)));
    {
        let txn = doc.transact();
        assert!(map.get(&txn, "a").is_none());
        assert_eq!(map.len(&txn), 1);
    }
    let (r, _) = ops.apply(&doc, &map, MapOpType::Clear, MapOpParams::default());
    assert!(matches!(r, Ok(None)));
    let txn = doc.transact();
    assert_eq!(map.len(&txn), 0);
}

#[test]
fn unregistered_and_busy() {
    let doc = Doc::new();
    let map = doc.get_or_insert_map("m");
    let ops = YrsMapOps::new();
    let (r, _) = ops.apply(&doc, &map, MapOpType::InsertNestType, MapOpParams::default());
    assert!(matches!(r, Err(MapOpError::Unsupported)));
    let _open = doc.transact_mut();
    let (r, _) = ops.apply(&doc, &map, MapOpType::Clear, MapOpParams::default());
    assert!(matches!(r, Err(MapOpError::TransactionBusy)));
}

#[test]
fn workspace_maps_are_made_and_reused() {
    let doc = Doc::new();
    let root = doc.get_or_insert_map("blocks");
    let mut txn = doc.transact_mut();
    assert!(Workspace::can_open(&txn));
    let ws = Workspace::try_new(&mut txn, "ws1").unwrap();
    assert_eq!(ws.id(), "ws1");
    assert_eq!(root.len(&txn), 2);
    ws.blocks().insert(&mut txn, "b1", "block");
    ws.updated().insert(&mut txn, "b1", "1");
    let again = Workspace::new(&mut txn, "ws2");
    assert_eq!(again.id(), "ws2");
    assert_eq!(root.len(&txn), 2);
    assert_eq!(again.blocks().len(&txn), 1);
    assert_eq!(again.updated().len(&txn), 1);
    assert!(again.remove(&mut txn, "b1"));
    assert!(!again.remove(&mut txn, "b1"));
    assert_eq!(ws.blocks().len(&txn), 0);
    assert_eq!(ws.updated().len(&txn), 1);
}

#[test]
fn workspace_needs_a_blocks_root_holding_maps() {
    let doc = Doc::new();
    {
        let mut txn = doc.transact_mut();
        assert!(!Workspace::can_open(&txn));
        assert!(Workspace::try_new(&mut txn, "ws").is_none());
    }
    let root = doc.get_or_insert_map("blocks");
    let mut txn = doc.transact_mut();
    root.insert(&mut txn, "content", "not a map");
    assert!(!Workspace::can_open(&txn));
    assert!(Workspace::try_new(&mut txn, "ws").is_none());
    assert_eq!(root.len(&txn), 1);
    assert_eq!(root.get(&txn, "content").unwrap().to_string(&txn), "not a map");
}

#[test]
fn root_lookup() {
    let doc = Doc::new();
    assert!(jwst_sync::doc_ops::root_map(&doc, "m").0.is_none());
    let _m = doc.get_or_insert_map("m");
    let found = jwst_sync::doc_ops::root_map(&doc, "m").0.unwrap();
    let ops = YrsMapOps::new();
    let (r, _) = ops.apply(
        &doc,
        &found,
        MapOpType::Insert,
        MapOpParams { key: Some("x".to_string()), value: Some("y".to_string()) },
    );
    assert!(matches!(r, Ok(None)));
    let txn = doc.transact();
    assert_eq!(found.get(&txn, "x").unwrap().to_string(&txn), "y");
}

#[test]
fn operations_inside_an_open_transaction() {
    let doc = Doc::new();
    let map = doc.get_or_insert_map("m");
    let ops = YrsMapOps::new();
    let mut txn = doc.transact_mut();
    let r = ops.apply_in(
        &mut txn,
        &map,
        MapOpType::Insert,
        MapOpParams { key: Some("k".to_string()), value: Some("v".to_string()) },
    );
    assert!(r.is_none());
    assert_eq!(map.get(&txn, "k").unwrap().to_string(&txn), "v");
    let r = ops.apply_in(
        &mut txn,
        &map,
        MapOpType::Insert,
        MapOpParams { key: Some("k".to_string()), value: Some("w".to_string()) },
    );
    assert!(r.is_none());
    assert_eq!(map.get(&txn, "k").unwrap().to_string(&txn), "w");
    assert_eq!(map.len(&txn), 1);
    let r = ops.apply_in(
        &mut txn,
        &map,
        MapOpType::Remove,
        MapOpParams { key: Some("absent".to_string()), value: None },
    );
    assert!(r.is_none());
    assert_eq!(map.len(&txn), 1);
    ops.apply_in(&mut txn, &map, MapOpType::Clear, MapOpParams::default());
    assert_eq!(map.len(&txn), 0);
}
