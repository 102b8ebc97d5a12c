use animal_service::controllers::animal;
use animal_service::handlers;
use animal_service::handlers::animal::Table;
use animal_service::model::{Animal, AnimalCreateRequest, AnimalId, PayloadFields};
use animal_service::response::{ApiError, Body, Response};
use uuid::Uuid;

fn fields(name: &str, weight: i64, diet: &str) -> Option<PayloadFields> {
    Some(PayloadFields {
        id: None,
        name: Some(String::from(name)),
        weight: Some(weight),
        diet: Some(String::from(diet)),
    })
}

fn payload(name: &str, weight: i32, diet: &str) -> AnimalCreateRequest {
    AnimalCreateRequest { name: String::from(name), weight, diet: String::from(diet) }
}

fn id_of(uuid: &Uuid) -> AnimalId {
    AnimalId { value: uuid.as_u128() }
}

fn row(uuid: &Uuid, name: &str, weight: i32, diet: &str) -> Animal {
    Animal { id: id_of(uuid), name: String::from(name), weight, diet: String::from(diet) }
}

fn not_found() -> Response {
    Response { status: 404, body: Body::Error(ApiError::NotFound) }
}

#[test]
fn list_animals() {
    let table = Table::new();
    let res = animal::list(&table);
    assert_eq!(200, res.status);
    assert_eq!(Body::Rows(vec![]), res.body);
}

#[test]
fn create_animal() {
    let mut table = Table::new();
    let res = animal::create(fields("test_create", 500, "carnivorous"), &mut table);
    assert_eq!(201, res.status);
    match res.body {
        Body::Row(a) => {
            assert_eq!("test_create", a.name);
            assert_eq!(500, a.weight);
            assert_eq!("carnivorous", a.diet);
        }
        other => panic!("unexpected body {:?}", other),
    }
    assert_eq!(1, table.len());
}

#[test]
fn create_animal_with_existing_id() {
    let uuid = Uuid::new_v4();
    let mut table = Table::new();
    let first = handlers::animal::create_with_id(
        id_of(&uuid),
        payload("test_existing_id", 500, "carnivorous"),
        &mut table,
    );
    assert!(first.is_ok());

    let res = animal::create_with_id(
        id_of(&uuid),
        fields("test_existing_id", 500, "carnivorous"),
        &mut table,
    );
    assert_eq!(409, res.status);
    assert_eq!(Body::Error(ApiError::Conflict), res.body);
    assert_eq!(1, table.len());
}

#[test]
fn get_animal() {
    let uuid = Uuid::new_v4();
    let mut table = Table::new();
    handlers::animal::create_with_id(
        id_of(&uuid),
        payload("test_get", 500, "carnivorous"),
        &mut table,
    )
    .unwrap();

    let res = animal::get(&format!("{}", &uuid), &table);
    assert_eq!(200, res.status);
    assert_eq!(Body::Row(row(&uuid, "test_get", 500, "carnivorous")), res.body);
}

#[test]
fn get_animal_non_existing_id() {
    let table = Table::new();
    let res = animal::get(&format!("{}", &Uuid::new_v4()), &table);
    assert_eq!(404, res.status);
    assert_eq!(not_found(), res);
}

#[test]
fn update_animal() {
    let uuid = Uuid::new_v4();
    let mut table = Table::new();
    handlers::animal::create_with_id(
        id_of(&uuid),
        payload("test_get", 500, "carnivorous"),
        &mut table,
    )
    .unwrap();

    let res = animal::update(
        &format!("{}", &uuid),
        fields("updated from test", 500, "carnivorous"),
        &mut table,
    );
    assert_eq!(200, res.status);
    assert_eq!(Body::Row(row(&uuid, "updated from test", 500, "carnivorous")), res.body);
    assert_eq!(
        Ok(Some(row(&uuid, "updated from test", 500, "carnivorous"))),
        handlers::animal::get(id_of(&uuid), &table)
    );
}

#[test]
fn updatet_animal_non_existing_id() {
    let mut table = Table::new();
    let res = animal::update(
        &format!("{}", &Uuid::new_v4()),
        fields("test_update", 500, "carnivorous"),
        &mut table,
    );
    assert_eq!(404, res.status);
    assert_eq!(0, table.len());
}

#[test]
fn delete_animal() {
    let uuid = Uuid::new_v4();
    let mut table = Table::new();
    handlers::animal::create_with_id(
        id_of(&uuid),
        payload("test_get", 500, "carnivorous"),
        &mut table,
    )
    .unwrap();

    let res = animal::delete(&format!("{}", &uuid), &mut table);
    assert_eq!(204, res.status);
    assert_eq!(Body::Empty, res.body);
    assert_eq!(0, table.len());
}

#[test]
fn delete_animal_non_existing_id() {
    let mut table = Table::new();
    let res = animal::delete(&format!("{}", &Uuid::new_v4()), &mut table);
    assert_eq!(404, res.status);
}

#[test]
fn rex_is_created_read_renamed_and_deleted() {
    let mut table = Table::new();
    let created = animal::create(fields("Rex", 500, "carnivorous"), &mut table);
    assert_eq!(201, created.status);
    let made = match created.body {
        Body::Row(a) => a,
        other => panic!("unexpected body {:?}", other),
    };
    assert_eq!("Rex", made.name);
    let text = Uuid::from_u128(made.id.value).to_string();

    let read = animal::get(&text, &table);
    assert_eq!(Response { status: 200, body: Body::Row(made.clone()) }, read);

    let renamed = animal::update(&text, fields("Rex2", 500, "carnivorous"), &mut table);
    assert_eq!(200, renamed.status);
    assert_eq!(
        Body::Row(Animal {
            id: made.id,
            name: String::from("Rex2"),
            weight: 500,
            diet: String::from("carnivorous"),
        }),
        renamed.body
    );

    let gone = animal::delete(&text, &mut table);
    assert_eq!(Response { status: 204, body: Body::Empty }, gone);

    assert_eq!(not_found(), animal::get(&text, &table));
}

#[test]
fn second_delete_is_not_found() {
    let uuid = Uuid::from_u128(7);
    let text = uuid.to_string();
    let mut table = Table::new();
    animal::create_with_id(id_of(&uuid), fields("a", 1, "herbivorous"), &mut table);
    assert_eq!(204, animal::delete(&text, &mut table).status);
    assert_eq!(not_found(), animal::delete(&text, &mut table));
    assert_eq!(0, table.len());
}

#[test]
fn deleted_id_is_absent_for_every_verb() {
    let uuid = Uuid::from_u128(9);
    let text = uuid.to_string();
    let mut table = Table::new();
    animal::create_with_id(id_of(&uuid), fields("a", 1, "herbivorous"), &mut table);
    animal::delete(&text, &mut table);
    assert_eq!(not_found(), animal::get(&text, &table));
    assert_eq!(not_found(), animal::update(&text, fields("b", 2, "x"), &mut table));
    assert_eq!(not_found(), animal::delete(&text, &mut table));
}

#[test]
fn malformed_identifier_is_a_bad_request() {
    let mut table = Table::new();
    let bad = Response { status: 400, body: Body::Error(ApiError::BadRequest) };
    assert_eq!(bad, animal::get("not-a-uuid", &table));
    assert_eq!(bad, animal::update("not-a-uuid", fields("b", 2, "x"), &mut table));
    assert_eq!(bad, animal::delete("", &mut table));
}

#[test]
fn malformed_body_is_a_bad_request() {
    let uuid = Uuid::from_u128(11);
    let text = uuid.to_string();
    let mut table = Table::new();
    animal::create_with_id(id_of(&uuid), fields("a", 1, "herbivorous"), &mut table);
    let bad = Response { status: 400, body: Body::Error(ApiError::BadRequest) };

    assert_eq!(bad, animal::create(None, &mut table));
    let no_name = Some(PayloadFields { id: None, name: None, weight: Some(1), diet: Some(String::new()) });
    assert_eq!(bad, animal::create(no_name, &mut table));
    let no_weight =
        Some(PayloadFields { id: None, name: Some(String::new()), weight: None, diet: Some(String::new()) });
    assert_eq!(bad, animal::update(&text, no_weight, &mut table));
    let no_diet =
        Some(PayloadFields { id: None, name: Some(String::new()), weight: Some(1), diet: None });
    assert_eq!(bad, animal::update(&text, no_diet, &mut table));
    assert_eq!(bad, animal::create(fields("big", 2147483648, "x"), &mut table));
    assert_eq!(bad, animal::create(fields("small", -2147483649, "x"), &mut table));

    assert_eq!(1, table.len());
    assert_eq!(
        Body::Row(row(&uuid, "a", 1, "herbivorous")),
        animal::get(&text, &table).body
    );
}

#[test]
fn weight_at_the_limits_is_accepted() {
    let mut table = Table::new();
    let top = animal::create(fields("top", 2147483647, "x"), &mut table);
    assert_eq!(201, top.status);
    let bottom = animal::create(fields("bottom", -2147483648, "x"), &mut table);
    assert_eq!(201, bottom.status);
    match bottom.body {
        Body::Row(a) => assert_eq!(i32::MIN, a.weight),
        other => panic!("unexpected body {:?}", other),
    }
}

#[test]
fn update_keeps_the_identifier_and_the_place() {
    let first = Uuid::from_u128(1);
    let second = Uuid::from_u128(2);
    let mut table = Table::new();
    animal::create_with_id(id_of(&first), fields("a", 1, "x"), &mut table);
    animal::create_with_id(id_of(&second), fields("b", 2, "y"), &mut table);
    animal::update(&first.to_string(), fields("c", 3, "z"), &mut table);
    assert_eq!(
        Body::Rows(vec![row(&first, "c", 3, "z"), row(&second, "b", 2, "y")]),
        animal::list(&table).body
    );
}

#[test]
fn list_counts_creates_less_deletes() {
    let mut table = Table::new();
    for n in 1..=5u128 {
        let res = animal::create_with_id(
            AnimalId { value: n },
            fields(&format!("animal {}", n), 10, "x"),
            &mut table,
        );
        assert_eq!(201, res.status);
    }
    animal::update(&Uuid::from_u128(3).to_string(), fields("third", 30, "y"), &mut table);
    assert_eq!(204, animal::delete(&Uuid::from_u128(2).to_string(), &mut table).status);
    assert_eq!(204, animal::delete(&Uuid::from_u128(5).to_string(), &mut table).status);
    assert_eq!(
        Response {
            status: 200,
            body: Body::Rows(vec![
                row(&Uuid::from_u128(1), "animal 1", 10, "x"),
                row(&Uuid::from_u128(3), "third", 30, "y"),
                row(&Uuid::from_u128(4), "animal 4", 10, "x"),
            ]),
        },
        animal::list(&table)
    );
}

#[test]
fn many_random_creates_never_conflict() {
    let mut table = Table::new();
    for _ in 0..50 {
        assert_eq!(201, animal::create(fields("a", 1, "x"), &mut table).status);
    }
    assert_eq!(50, table.len());
}

#[test]
fn identifier_in_the_body_is_ignored() {
    let first = Uuid::from_u128(1);
    let second = Uuid::from_u128(2);
    let mut table = Table::new();
    animal::create_with_id(id_of(&first), fields("a", 1, "x"), &mut table);
    let body = Some(PayloadFields {
        id: Some(second.to_string()),
        name: Some(String::from("b")),
        weight: Some(2),
        diet: Some(String::from("y")),
    });
    let res = animal::update(&first.to_string(), body, &mut table);
    assert_eq!(Response { status: 200, body: Body::Row(row(&first, "b", 2, "y")) }, res);
    assert_eq!(not_found(), animal::get(&second.to_string(), &table));
    assert_eq!(Body::Rows(vec![row(&first, "b", 2, "y")]), animal::list(&table).body);

    let body = Some(PayloadFields {
        id: Some(first.to_string()),
        name: Some(String::from("c")),
        weight: Some(3),
        diet: Some(String::from("z")),
    });
    assert_eq!(201, animal::create_with_id(id_of(&second), body, &mut table).status);
    assert_eq!(2, table.len());
}
