use enigma_server::handler::Claims;
use enigma_server::json::{Json, Member};
use enigma_server::repository::experiment::{
    begin_save, conclude_delete, conclude_get, conclude_list, delete, get, list, list_query, save,
    stamp, Document, DocumentId, InsertedId, ListQuery,
};
use enigma_server::service::experiment::{
    create, offset_of_page, Classing, Experiment, Interval, ServiceError, Store, StoreError,
    Variance,
};
use std::cell::RefCell;
use std::collections::HashMap;

/// A store that keeps its documents in memory, one under each id.
struct MemoryStore {
    docs: RefCell<Vec<Document>>,
}

impl MemoryStore {
    fn new() -> Self {
        MemoryStore { docs: RefCell::new(Vec::new()) }
    }

    fn insert_one(&self, doc: &Document) -> Result<InsertedId, String> {
        let mut docs = self.docs.borrow_mut();
        if docs.iter().any(|d| d._id == doc._id) {
            return Err("duplicate key".to_string());
        }
        docs.push(doc.clone());
        match &doc._id {
            Some(text) => Ok(InsertedId::ObjectId(DocumentId::parse(text).unwrap())),
            None => Ok(InsertedId::Other),
        }
    }

    fn find_one(&self, key: &DocumentId) -> Result<Option<Document>, String> {
        let hex = key.to_hex();
        Ok(self.docs.borrow().iter().find(|d| d._id.as_deref() == Some(hex.as_str())).cloned())
    }

    fn find(&self, query: &ListQuery) -> Result<Vec<Document>, String> {
        Ok(self
            .docs
            .borrow()
            .iter()
            .filter(|d| d.tenant_id == query.tenant_id)
            .skip(query.skip as usize)
            .take(query.limit as usize)
            .cloned()
            .collect())
    }

    fn delete_one(&self, key: &DocumentId) -> Result<u64, String> {
        let hex = key.to_hex();
        let mut docs = self.docs.borrow_mut();
        let before = docs.len();
        docs.retain(|d| d._id.as_deref() != Some(hex.as_str()));
        Ok((before - docs.len()) as u64)
    }
}

impl Store for MemoryStore {
    fn save(&self, data: &mut Experiment) -> Result<String, StoreError> {
        save(data, |doc: &Document| self.insert_one(doc))
    }

    fn get(&self, id: &str, tenant_id: &str) -> Result<Experiment, StoreError> {
        get(id, tenant_id, |key: &DocumentId| self.find_one(key))
    }

    fn list(
        &self,
        tenant_id: &str,
        offset: usize,
        limit: usize,
    ) -> Result<Vec<Experiment>, StoreError> {
        list(tenant_id, offset, limit, |query: &ListQuery| self.find(query))
    }

    fn delete(&self, id: &str, tenant_id: &str) -> Result<(), StoreError> {
        delete(
            id,
            tenant_id,
            |key: &DocumentId| self.find_one(key),
            |key: &DocumentId| self.delete_one(key),
        )
    }
}

fn experiment(name: &str, tenant: &str) -> Experiment {
    let mut values = HashMap::new();
    values.insert("colour".to_string(), Json::Text("green".to_string()));
    values.insert(
        "sizes".to_string(),
        Json::Array(vec![Json::Number("1".to_string()), Json::Number("2.5".to_string())]),
    );
    Experiment {
        id: None,
        name: name.to_string(),
        description: "which button is pressed more".to_string(),
        active_interval: Some(Interval(Some(1_700_000_000_000), None)),
        variances: vec![Variance {
            group_name: "control".to_string(),
            description: String::new(),
            indicator: "button".to_string(),
            weight: 50,
            values,
        }],
        classing: Classing { strategy: "random".to_string(), persistent_mode: "sticky".to_string() },
        owner: Some(Json::Object(vec![Member {
            name: "id".to_string(),
            value: Json::Text("u1".to_string()),
        }])),
        tenant_id: tenant.to_string(),
        created_at: None,
        updated_at: None,
        deleted_at: None,
    }
}

fn claims(id: &str, tenant: &str) -> Claims {
    Claims {
        id: id.to_string(),
        username: "ann".to_string(),
        tenant_id: tenant.to_string(),
        email: "ann@example.org".to_string(),
        alias: "a".to_string(),
    }
}

#[test]
fn two_saves_give_different_ids_that_are_not_empty() {
    let store = MemoryStore::new();
    let mut first = experiment("first one", "t1");
    let mut second = experiment("second one", "t1");
    let a = store.save(&mut first).unwrap();
    let b = store.save(&mut second).unwrap();
    assert_eq!(a.len(), 24);
    assert_eq!(b.len(), 24);
    assert_ne!(a, b);
    assert_eq!(first.id, Some(a));
    assert_eq!(second.id, Some(b));
}

#[test]
fn what_was_saved_is_fetched_with_its_times() {
    let store = MemoryStore::new();
    let given = experiment("button colour", "t1");
    let mut saved = given.clone();
    let id = store.save(&mut saved).unwrap();
    let found = store.get(&id, "t1").unwrap();
    assert_eq!(found, saved);
    assert_eq!(found.id, Some(id));
    assert!(found.created_at.is_some());
    assert_eq!(found.created_at, found.updated_at);
    let expected = Experiment {
        id: found.id.clone(),
        created_at: found.created_at,
        updated_at: found.updated_at,
        ..given
    };
    assert_eq!(found, expected);
}

#[test]
fn a_time_of_creation_is_kept() {
    let store = MemoryStore::new();
    let mut data = experiment("button colour", "t1");
    data.created_at = Some(1234);
    store.save(&mut data).unwrap();
    assert_eq!(data.created_at, Some(1234));
    assert!(data.updated_at.unwrap() > 1234);
}

#[test]
fn another_tenant_is_refused() {
    let store = MemoryStore::new();
    let mut data = experiment("button colour", "t1");
    let id = store.save(&mut data).unwrap();
    assert_eq!(store.get(&id, "t2"), Err(StoreError::UnauthorizedAccess));
    assert_eq!(store.get(&id, ""), Err(StoreError::UnauthorizedAccess));
    assert_eq!(store.get(&id, "T1"), Err(StoreError::UnauthorizedAccess));
    assert_eq!(store.delete(&id, "t2"), Err(StoreError::UnauthorizedAccess));
    assert!(store.get(&id, "t1").is_ok());
}

#[test]
fn a_malformed_id_is_invalid_input_and_no_internal_error() {
    let store = MemoryStore::new();
    match store.get("not-a-valid-id", "t1") {
        Err(StoreError::InvalidInput { message }) => {
            assert!(message.starts_with("invalid id pattern id(not-a-valid-id) "));
        }
        other => panic!("expected invalid input, got {:?}", other),
    }
    assert!(matches!(store.delete("not-a-valid-id", "t1"), Err(StoreError::InvalidInput { .. })));
}

#[test]
fn an_unknown_id_is_not_found() {
    let store = MemoryStore::new();
    assert_eq!(store.get("507f1f77bcf86cd799439011", "t1"), Err(StoreError::DocumentNotfound));
    assert_eq!(store.delete("507f1f77bcf86cd799439011", "t1"), Err(StoreError::DocumentNotfound));
}

#[test]
fn an_id_is_found_in_either_case() {
    let store = MemoryStore::new();
    let mut data = experiment("button colour", "t1");
    let id = store.save(&mut data).unwrap();
    assert_eq!(store.get(&id.to_uppercase(), "t1").unwrap(), data);
}

#[test]
fn the_second_page_of_ten_holds_the_tenants_own_and_ten_at_most() {
    let store = MemoryStore::new();
    for i in 0..25 {
        store.save(&mut experiment(&format!("mine {}", i), "t1")).unwrap();
        store.save(&mut experiment(&format!("theirs {}", i), "t2")).unwrap();
    }
    let page = enigma_server::service::experiment::list(&store, "t1", 2, 10).unwrap();
    assert_eq!(page.len(), 10);
    assert!(page.iter().all(|e| e.tenant_id == "t1"));
    let names: Vec<String> = page.iter().map(|e| e.name.clone()).collect();
    let expected: Vec<String> = (10..20).map(|i| format!("mine {}", i)).collect();
    assert_eq!(names, expected);
    let last = enigma_server::service::experiment::list(&store, "t1", 3, 10).unwrap();
    assert_eq!(last.len(), 5);
    let none = enigma_server::service::experiment::list(&store, "t1", 4, 10).unwrap();
    assert_eq!(none.len(), 0);
}

#[test]
fn a_list_drops_what_the_store_should_not_have_answered() {
    let docs: Vec<Document> = vec![
        Document::from(experiment("a", "t1")),
        Document::from(experiment("b", "t2")),
        Document::from(experiment("c", "t1")),
        Document::from(experiment("d", "t1")),
    ];
    let listed = conclude_list(Ok(docs.clone()), "t1", 2).unwrap();
    assert_eq!(listed, vec![experiment("a", "t1"), experiment("c", "t1")]);
    let all = conclude_list(Ok(docs.clone()), "t1", 10).unwrap();
    assert_eq!(all.len(), 3);
    assert_eq!(conclude_list(Ok(docs.clone()), "t1", 0).unwrap(), vec![]);
    assert_eq!(conclude_list(Ok(docs), "t3", 10).unwrap(), vec![]);
    assert_eq!(
        conclude_list(Err("cursor lost".to_string()), "t1", 10),
        Err(StoreError::InternalError { message: "cursor lost".to_string() })
    );
}

#[test]
fn a_list_asks_for_the_tenant_the_offset_and_the_limit() {
    assert_eq!(
        list_query("t1", 10, 5),
        ListQuery { tenant_id: "t1".to_string(), skip: 10, limit: 5 }
    );
    assert_eq!(list_query("", 0, 0), ListQuery { tenant_id: String::new(), skip: 0, limit: 0 });
    assert_eq!(list_query("t", usize::MAX, usize::MAX).limit, i64::MAX);
    assert_eq!(list_query("t", usize::MAX, usize::MAX).skip, usize::MAX as u64);
}

#[test]
fn pages_begin_after_the_pages_before_them() {
    assert_eq!(offset_of_page(1, 10), 0);
    assert_eq!(offset_of_page(2, 10), 10);
    assert_eq!(offset_of_page(7, 25), 150);
    assert_eq!(offset_of_page(0, 10), 0);
    assert_eq!(offset_of_page(5, 0), 0);
    assert_eq!(offset_of_page(usize::MAX, 2), usize::MAX);
    assert_eq!(offset_of_page(3, usize::MAX), usize::MAX);
}

#[test]
fn created_for_one_tenant_is_listed_for_that_tenant_alone() {
    let store = MemoryStore::new();
    let mut data = experiment("checkout flow", "someone else");
    data.owner = None;
    let made = create(&store, data, &claims("u1", "t1")).unwrap();
    assert_eq!(made.tenant_id, "t1");
    assert_eq!(made.owner, Some(claims("u1", "t1").owner()));
    assert_eq!(made.id.as_ref().map(|id| id.len()), Some(24));
    let mine = enigma_server::service::experiment::list(&store, "t1", 1, 10).unwrap();
    assert_eq!(mine.len(), 1);
    assert_eq!(mine[0].name, "checkout flow");
    assert_eq!(mine[0], made);
    let theirs = enigma_server::service::experiment::list(&store, "t2", 1, 10).unwrap();
    assert_eq!(theirs.len(), 0);
    let fetched =
        enigma_server::service::experiment::get(&store, made.id.as_ref().unwrap(), "t1").unwrap();
    assert_eq!(fetched, made);
    assert_eq!(
        enigma_server::service::experiment::get(&store, made.id.as_ref().unwrap(), "t2"),
        Err(ServiceError::Store(StoreError::UnauthorizedAccess))
    );
}

#[test]
fn an_invalid_experiment_is_not_stored() {
    let store = MemoryStore::new();
    let data = experiment("abc", "t1");
    match create(&store, data, &claims("u1", "t1")) {
        Err(ServiceError::User(e)) => {
            assert_eq!(e.message(), "name: must have length between 4 - 100");
        }
        other => panic!("expected a validation error, got {:?}", other),
    }
    assert_eq!(store.docs.borrow().len(), 0);
}

#[test]
fn a_deleted_experiment_is_gone() {
    let store = MemoryStore::new();
    let mut data = experiment("button colour", "t1");
    let id = store.save(&mut data).unwrap();
    assert_eq!(enigma_server::service::experiment::delete(&store, &id, "t1"), Ok(()));
    assert_eq!(store.get(&id, "t1"), Err(StoreError::DocumentNotfound));
    assert_eq!(
        enigma_server::service::experiment::delete(&store, &id, "t1"),
        Err(ServiceError::Store(StoreError::DocumentNotfound))
    );
}

#[test]
fn an_experiment_with_an_id_keeps_it() {
    let store = MemoryStore::new();
    let mut data = experiment("button colour", "t1");
    data.id = Some("507F1F77BCF86CD799439011".to_string());
    let id = store.save(&mut data).unwrap();
    assert_eq!(id, "507f1f77bcf86cd799439011");
    assert_eq!(data.id, Some(id));
    let mut again = experiment("button colour", "t1");
    again.id = Some("507f1f77bcf86cd799439011".to_string());
    assert_eq!(
        store.save(&mut again),
        Err(StoreError::InternalError { message: "duplicate key".to_string() })
    );
    assert_eq!(again.id, Some("507f1f77bcf86cd799439011".to_string()));
    assert!(again.updated_at.is_some());
}

#[test]
fn an_experiment_with_a_malformed_id_is_not_saved() {
    let store = MemoryStore::new();
    let mut data = experiment("button colour", "t1");
    data.id = Some("mock".to_string());
    let before = data.clone();
    assert!(matches!(store.save(&mut data), Err(StoreError::InvalidInput { .. })));
    assert_eq!(data, before);
    assert_eq!(store.docs.borrow().len(), 0);
    match begin_save(before.clone()) {
        Err(rejected) => {
            assert_eq!(rejected.data, before);
            assert!(matches!(rejected.error, StoreError::InvalidInput { .. }));
        }
        Ok(_) => panic!("a malformed id was accepted"),
    }
}

#[test]
fn the_first_step_of_a_save_stamps_the_document() {
    let given = experiment("button colour", "t1");
    let pending = begin_save(given.clone()).unwrap();
    assert_eq!(pending.previous_id, None);
    let doc = &pending.document;
    assert_eq!(doc._id.as_ref().map(|id| id.len()), Some(24));
    assert!(doc.updated_at.is_some());
    assert_eq!(doc.created_at, doc.updated_at);
    assert_eq!(doc.name, given.name);
    assert_eq!(doc.variances, given.variances);
    assert_eq!(doc.owner, given.owner);
    assert_eq!(doc.tenant_id, "t1");
}

#[test]
fn stamping_sets_the_id_and_the_times() {
    let id = DocumentId::parse("507f1f77bcf86cd799439011").unwrap();
    let doc = stamp(Document::from(experiment("a", "t1")), 99, id.clone());
    assert_eq!(doc._id, Some("507f1f77bcf86cd799439011".to_string()));
    assert_eq!(doc.created_at, Some(99));
    assert_eq!(doc.updated_at, Some(99));
    let mut old = experiment("a", "t1");
    old.created_at = Some(5);
    old.updated_at = Some(6);
    let doc = stamp(Document::from(old), 99, id);
    assert_eq!(doc.created_at, Some(5));
    assert_eq!(doc.updated_at, Some(99));
}

#[test]
fn a_save_without_an_id_from_the_store_fails() {
    let mut data = experiment("button colour", "t1");
    let result = save(&mut data, |_doc: &Document| Ok(InsertedId::Other));
    assert_eq!(
        result,
        Err(StoreError::InternalError { message: "undefined inserted id".to_string() })
    );
    assert_eq!(data.id, None);
    assert!(data.updated_at.is_some());
    assert_eq!(data.name, "button colour");
}

#[test]
fn a_failure_of_the_store_is_an_internal_error_in_its_words() {
    let mut data = experiment("button colour", "t1");
    let result = save(&mut data, |_doc: &Document| Err("connection reset".to_string()));
    assert_eq!(result, Err(StoreError::InternalError { message: "connection reset".to_string() }));
    assert_eq!(data.id, None);
    assert_eq!(
        conclude_get(Err("connection reset".to_string()), "t1"),
        Err(StoreError::InternalError { message: "connection reset".to_string() })
    );
    assert_eq!(
        conclude_delete(Err("connection reset".to_string())),
        Err(StoreError::InternalError { message: "connection reset".to_string() })
    );
}

#[test]
fn a_save_takes_the_id_that_the_store_names() {
    let mut data = experiment("button colour", "t1");
    let named = DocumentId::parse("aaaaaaaaaaaaaaaaaaaaaaaa").unwrap();
    let result = save(&mut data, |_doc: &Document| Ok(InsertedId::ObjectId(named.clone())));
    assert_eq!(result, Ok("aaaaaaaaaaaaaaaaaaaaaaaa".to_string()));
    assert_eq!(data.id, Some("aaaaaaaaaaaaaaaaaaaaaaaa".to_string()));
}

#[test]
fn the_last_step_of_a_fetch_decides_by_the_tenant() {
    let doc = Document::from(experiment("a", "t1"));
    assert_eq!(conclude_get(Ok(Some(doc.clone())), "t1"), Ok(experiment("a", "t1")));
    assert_eq!(conclude_get(Ok(Some(doc)), "t2"), Err(StoreError::UnauthorizedAccess));
    assert_eq!(conclude_get(Ok(None), "t1"), Err(StoreError::DocumentNotfound));
}

#[test]
fn the_last_step_of_a_delete_counts_what_was_removed() {
    assert_eq!(conclude_delete(Ok(1)), Ok(()));
    assert_eq!(conclude_delete(Ok(2)), Ok(()));
    assert_eq!(conclude_delete(Ok(0)), Err(StoreError::DocumentNotfound));
}

#[test]
fn a_document_and_its_experiment_are_each_others() {
    let mut e = experiment("a", "t1");
    e.id = Some("507f1f77bcf86cd799439011".to_string());
    e.created_at = Some(1);
    e.updated_at = Some(2);
    e.deleted_at = Some(3);
    let doc = Document::from(e.clone());
    assert_eq!(doc._id, e.id);
    assert_eq!(doc.deleted_at, Some(3));
    assert_eq!(Experiment::from(doc.clone()), e);
    assert_eq!(Document::from(Experiment::from(doc.clone())), doc);
}

#[test]
fn store_errors_have_their_codes_and_messages() {
    let internal = StoreError::InternalError { message: "boom".to_string() };
    assert_eq!(internal.code(), "internal_error");
    assert_eq!(internal.message(), "boom");
    assert_eq!(StoreError::DocumentNotfound.code(), "document_notfound");
    assert_eq!(StoreError::DocumentNotfound.message(), "document not found");
    let invalid = StoreError::InvalidInput { message: "bad id".to_string() };
    assert_eq!(invalid.code(), "invalid_input");
    assert_eq!(invalid.message(), "bad id");
    assert_eq!(StoreError::UnauthorizedAccess.code(), "unauthorized_access");
    assert_eq!(StoreError::UnauthorizedAccess.message(), "unauthorized access");
}
