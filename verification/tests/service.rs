use actix_template::ids::{id_or_invalid, request_id};
use actix_template::routes::reply::{
    create_response, delete_response, get_response, list_response, update_response,
};
use actix_template::routes::service::{
    check_create, check_if_user_exists, create_after_lookup, create_after_lookup_with,
    create_user_repository, created_id, delete_user_repository, fetched,
    get_all_users_repository, get_user_by_id_repository, listed, shown, update_after_fetch,
    update_after_fetch_at, update_user_repository, written, CreateNext, UpdateNext,
};
use actix_template::routes::user::project;
use actix_template::routes::{
    CreateUser, GetUser, HttpReply, ReplyBody, ServiceError, StoreError, UpdateUser, User,
};
use actix_template::store::UserTable;

fn input(name: &str, email: &str, password: &str) -> CreateUser {
    CreateUser { name: name.to_string(), email: email.to_string(), password: password.to_string() }
}

fn stored(id: u128, name: &str, email: &str) -> User {
    User {
        id,
        name: name.to_string(),
        email: email.to_string(),
        password: "pw".to_string(),
        created_at: 5,
        updated_at: 6,
    }
}

fn text_of(reply: &HttpReply) -> &str {
    match &reply.body {
        ReplyBody::Text(text) => text.as_str(),
        other => panic!("no text in the body: {:?}", other),
    }
}

#[test]
fn request_id_reads_a_uuid() {
    assert_eq!(
        request_id("67e55044-10b1-426f-9247-bb680e5fe0c8"),
        Ok(0x67e5504410b1426f9247bb680e5fe0c8)
    );
    assert_eq!(
        request_id("urn:uuid:67e55044-10b1-426f-9247-bb680e5fe0c8"),
        Ok(0x67e5504410b1426f9247bb680e5fe0c8)
    );
    assert_eq!(request_id("67e55044-10b1-426f-9247"), Err(ServiceError::InvalidInput));
    assert_eq!(request_id("zze55044-10b1-426f-9247-bb680e5fe0c8"), Err(ServiceError::InvalidInput));
    assert_eq!(id_or_invalid(Some(3)), Ok(3));
    assert_eq!(id_or_invalid(None), Err(ServiceError::InvalidInput));
}

#[test]
fn projection_leaves_the_password_out() {
    let shown = project(stored(9, "ann", "ann@example.org"));
    assert_eq!(shown.id, 9);
    assert_eq!(shown.name, "ann");
    assert_eq!(shown.email, "ann@example.org");
    assert_eq!(shown.created_at, 5);
    assert_eq!(shown.updated_at, 6);
    let same = GetUser::from(stored(9, "ann", "ann@example.org"));
    assert_eq!((same.id, same.name.as_str(), same.updated_at), (9, "ann", 6));
}

#[test]
fn precheck_decides_on_the_lookup() {
    let complete = input("ann", "ann@example.org", "pw");
    assert_eq!(check_create(&complete, Ok(false)), Ok(()));
    assert_eq!(check_create(&complete, Ok(true)), Err(ServiceError::Conflict));
    assert_eq!(check_create(&complete, Err(StoreError::Other)), Err(ServiceError::StorageError));
    assert_eq!(
        check_create(&complete, Err(StoreError::RowNotFound)),
        Err(ServiceError::StorageError)
    );
    let incomplete = input("ann", "ann@example.org", "");
    assert_eq!(check_create(&incomplete, Ok(false)), Err(ServiceError::InvalidInput));
    assert_eq!(check_create(&incomplete, Ok(true)), Err(ServiceError::Conflict));
}

#[test]
fn creation_decides_on_the_insert() {
    assert_eq!(created_id(4, Ok(())), Ok(4));
    assert_eq!(created_id(4, Err(StoreError::UniqueViolation)), Err(ServiceError::Conflict));
    assert_eq!(created_id(4, Err(StoreError::Other)), Err(ServiceError::StorageError));
    assert_eq!(created_id(4, Err(StoreError::RowNotFound)), Err(ServiceError::StorageError));
}

#[test]
fn lookup_decides_on_the_store() {
    let found = fetched(Ok(Some(stored(1, "ann", "ann@example.org")))).unwrap();
    assert_eq!((found.id, found.name.as_str(), found.password.as_str()), (1, "ann", "pw"));
    assert_eq!(fetched(Ok(None)).unwrap_err(), ServiceError::NotFound);
    assert_eq!(fetched(Err(StoreError::RowNotFound)).unwrap_err(), ServiceError::NotFound);
    assert_eq!(fetched(Err(StoreError::Other)).unwrap_err(), ServiceError::StorageError);
    assert_eq!(fetched(Err(StoreError::UniqueViolation)).unwrap_err(), ServiceError::StorageError);

    let user = shown(Ok(Some(stored(1, "ann", "ann@example.org")))).unwrap();
    assert_eq!((user.id, user.email.as_str()), (1, "ann@example.org"));
    assert_eq!(shown(Ok(None)).unwrap_err(), ServiceError::NotFound);
    assert_eq!(shown(Err(StoreError::Other)).unwrap_err(), ServiceError::StorageError);
}

#[test]
fn write_and_listing_decide_on_the_store() {
    assert_eq!(written(Ok(())), Ok(()));
    assert_eq!(written(Err(StoreError::Other)), Err(ServiceError::StorageError));
    assert_eq!(written(Err(StoreError::RowNotFound)), Err(ServiceError::StorageError));

    let users = listed(Ok(vec![stored(2, "bob", "b@x"), stored(1, "ann", "a@x")])).unwrap();
    assert_eq!(users.len(), 2);
    assert_eq!((users[0].id, users[0].name.as_str()), (2, "bob"));
    assert_eq!((users[1].id, users[1].name.as_str()), (1, "ann"));
    assert_eq!(listed(Err(StoreError::Other)).unwrap_err(), ServiceError::StorageError);
}

#[test]
fn merge_takes_what_is_supplied() {
    let change = UpdateUser { name: Some("anna".to_string()), password: None };
    let merged = change.merge_into(stored(1, "ann", "ann@example.org"), 77);
    assert_eq!(merged.id, 1);
    assert_eq!(merged.name, "anna");
    assert_eq!(merged.password, "pw");
    assert_eq!(merged.email, "ann@example.org");
    assert_eq!(merged.created_at, 5);
    assert_eq!(merged.updated_at, 77);
}

#[test]
fn repository_on_a_table() {
    let mut table = UserTable::new();
    assert_eq!(check_if_user_exists("ann@example.org", &table), Ok(false));
    assert_eq!(
        create_user_repository(input("ann", "ann@example.org", "pw"), 1, 10, &mut table),
        Ok(1)
    );
    assert_eq!(check_if_user_exists("ann@example.org", &table), Ok(true));
    assert_eq!(
        create_user_repository(input("bob", "ann@example.org", "pw"), 2, 11, &mut table),
        Err(ServiceError::Conflict)
    );
    assert_eq!(
        create_user_repository(input("bob", "bob@example.org", ""), 2, 11, &mut table),
        Err(ServiceError::InvalidInput)
    );

    let user = get_user_by_id_repository(1, &table).unwrap();
    assert_eq!((user.name.as_str(), user.created_at, user.updated_at), ("ann", 10, 10));
    assert_eq!(get_user_by_id_repository(2, &table).unwrap_err(), ServiceError::NotFound);

    let change = UpdateUser { name: None, password: Some("new".to_string()) };
    assert_eq!(update_user_repository(1, change, 20, &mut table), Ok(()));
    let change = UpdateUser { name: None, password: Some("new".to_string()) };
    assert_eq!(update_user_repository(2, change, 20, &mut table), Err(ServiceError::NotFound));
    assert_eq!(table.find_by_id(1).unwrap().password, "new");
    assert_eq!(table.find_by_email("ann@example.org").unwrap().id, 1);

    assert_eq!(get_all_users_repository(&table).unwrap().len(), 1);
    assert_eq!(delete_user_repository(1, &mut table), Ok(()));
    assert_eq!(delete_user_repository(1, &mut table), Ok(()));
    assert_eq!(get_user_by_id_repository(1, &table).unwrap_err(), ServiceError::NotFound);
    assert!(get_all_users_repository(&table).unwrap().is_empty());
}

#[test]
fn table_refuses_a_second_row_with_an_id_or_an_email() {
    let mut table = UserTable::new();
    assert_eq!(table.insert_user(stored(1, "ann", "ann@example.org")), Ok(()));
    assert_eq!(
        table.insert_user(stored(1, "bob", "bob@example.org")),
        Err(StoreError::UniqueViolation)
    );
    assert_eq!(
        table.insert_user(stored(2, "bob", "ann@example.org")),
        Err(StoreError::UniqueViolation)
    );
    assert_eq!(table.insert_user(stored(2, "bob", "bob@example.org")), Ok(()));
    let rows = table.list_all();
    assert_eq!(rows.iter().map(|r| r.id).collect::<Vec<u128>>(), vec![1, 2]);

    table.update_user(2, "rob".to_string(), "pw3".to_string(), 9);
    let bob = table.find_by_id(2).unwrap();
    assert_eq!((bob.name.as_str(), bob.password.as_str(), bob.email.as_str()), ("rob", "pw3", "bob@example.org"));
    assert_eq!((bob.created_at, bob.updated_at), (5, 9));
    table.update_user(3, "x".to_string(), "y".to_string(), 9);
    assert_eq!(table.len(), 2);
    table.delete_user(1);
    assert_eq!(table.list_all().iter().map(|r| r.id).collect::<Vec<u128>>(), vec![2]);
}

#[test]
fn replies_for_each_outcome() {
    let reply = list_response(Err(ServiceError::StorageError));
    assert_eq!((reply.status, text_of(&reply)), (500, "Internal Server Error"));
    assert_eq!(list_response(Ok(vec![])).status, 200);

    let reply = get_response(Err(ServiceError::InvalidInput));
    assert_eq!((reply.status, text_of(&reply)), (400, "Invalid id"));
    let reply = get_response(Err(ServiceError::NotFound));
    assert_eq!((reply.status, text_of(&reply)), (500, "Internal Server Error"));
    let reply = get_response(Err(ServiceError::StorageError));
    assert_eq!((reply.status, text_of(&reply)), (500, "Internal Server Error"));

    let reply = create_response(Ok(12));
    assert_eq!(reply.status, 200);
    assert!(matches!(reply.body, ReplyBody::Id(12)));
    let reply = create_response(Err(ServiceError::InvalidInput));
    assert_eq!((reply.status, text_of(&reply)), (400, "Invalid input"));
    let reply = create_response(Err(ServiceError::Conflict));
    assert_eq!((reply.status, text_of(&reply)), (400, "User already exists"));
    let reply = create_response(Err(ServiceError::StorageError));
    assert_eq!((reply.status, text_of(&reply)), (500, "Internal Server Error"));

    let reply = update_response(Ok(()));
    assert_eq!((reply.status, text_of(&reply)), (200, "User updated"));
    let reply = update_response(Err(ServiceError::InvalidInput));
    assert_eq!((reply.status, text_of(&reply)), (400, "Invalid id"));
    let reply = update_response(Err(ServiceError::NotFound));
    assert_eq!((reply.status, text_of(&reply)), (404, "User not found"));
    let reply = update_response(Err(ServiceError::StorageError));
    assert_eq!((reply.status, text_of(&reply)), (500, "Internal Server Error"));

    let reply = delete_response(Ok(()));
    assert_eq!((reply.status, text_of(&reply)), (200, "User deleted"));
    let reply = delete_response(Err(ServiceError::InvalidInput));
    assert_eq!((reply.status, text_of(&reply)), (400, "Invalid id"));
    let reply = delete_response(Err(ServiceError::StorageError));
    assert_eq!((reply.status, text_of(&reply)), (500, "Internal Server Error"));
}

#[test]
fn creation_goes_on_to_the_insert_or_ends() {
    match create_after_lookup_with(input("ann", "ann@example.org", "pw"), Ok(false), 3, 44) {
        CreateNext::Insert(row) => {
            assert_eq!((row.id, row.name.as_str(), row.email.as_str()), (3, "ann", "ann@example.org"));
            assert_eq!((row.password.as_str(), row.created_at, row.updated_at), ("pw", 44, 44));
        }
        other => panic!("no insert: {:?}", other),
    }
    assert!(matches!(
        create_after_lookup_with(input("ann", "ann@example.org", "pw"), Ok(true), 3, 44),
        CreateNext::Refuse(ServiceError::Conflict)
    ));
    assert!(matches!(
        create_after_lookup_with(input("", "ann@example.org", "pw"), Ok(false), 3, 44),
        CreateNext::Refuse(ServiceError::InvalidInput)
    ));
    assert!(matches!(
        create_after_lookup_with(input("ann", "ann@example.org", "pw"), Err(StoreError::Other), 3, 44),
        CreateNext::Refuse(ServiceError::StorageError)
    ));
}

#[test]
fn creation_takes_a_random_id_and_the_present_time() {
    match create_after_lookup(input("ann", "ann@example.org", "pw"), Ok(false)) {
        CreateNext::Insert(row) => {
            assert_eq!(row.id & 0xf000_c000_0000_0000_0000, 0x4000_8000_0000_0000_0000);
            assert_eq!(row.created_at, row.updated_at);
            assert!(row.created_at > 1_577_836_800_000_000);
            assert_eq!((row.name.as_str(), row.email.as_str()), ("ann", "ann@example.org"));
        }
        other => panic!("no insert: {:?}", other),
    }
    assert!(matches!(
        create_after_lookup(input("ann", "ann@example.org", "pw"), Ok(true)),
        CreateNext::Refuse(ServiceError::Conflict)
    ));
}

#[test]
fn change_goes_on_to_the_write_or_ends() {
    let change = UpdateUser { name: None, password: Some("new".to_string()) };
    match update_after_fetch_at(change, Ok(Some(stored(1, "ann", "ann@example.org"))), 50) {
        UpdateNext::Write(row) => {
            assert_eq!((row.id, row.name.as_str(), row.password.as_str()), (1, "ann", "new"));
            assert_eq!((row.created_at, row.updated_at), (5, 50));
        }
        other => panic!("no write: {:?}", other),
    }
    let change = UpdateUser { name: None, password: None };
    assert!(matches!(
        update_after_fetch_at(change, Ok(None), 50),
        UpdateNext::Refuse(ServiceError::NotFound)
    ));
    let change = UpdateUser { name: None, password: None };
    assert!(matches!(
        update_after_fetch_at(change, Err(StoreError::Other), 50),
        UpdateNext::Refuse(ServiceError::StorageError)
    ));
    let change = UpdateUser { name: Some("anna".to_string()), password: None };
    match update_after_fetch(change, Ok(Some(stored(1, "ann", "ann@example.org")))) {
        UpdateNext::Write(row) => {
            assert_eq!((row.name.as_str(), row.password.as_str()), ("anna", "pw"));
            assert!(row.updated_at > 1_577_836_800_000_000);
        }
        other => panic!("no write: {:?}", other),
    }
}
