use library_api::model::book::{Book, BookCopyForCreate, BookCopyForUpdate, BookForCreate, BookForUpdate, BorrowStatus};
use library_api::model::borrowing::{Borrowing, BorrowingForCreate, BorrowingForUpdate, BorrowingStatus};
use library_api::model::category::{Category, CategoryForUpdate};
use library_api::model::error::Error;
use library_api::model::reservation::{Reservation, ReservationForCreate, ReservationForUpdate, ReservationStatus};
use library_api::model::review::{Review, ReviewForCreate, ReviewForUpdate};
use library_api::model::user::{User, UserForCreate, UserForLogin, UserForUpdate, UserRole};
use library_api::model::{
    changed, column_names, count, create, delete, fetched, found, get, insert, into_values, list,
    list_where, select, update, update_where, Field, SqlValue, Statement,
};
use library_api::routes::book::claim_copy;

fn ints(values: &[SqlValue]) -> Vec<i64> {
    values
        .iter()
        .map(|v| match v {
            SqlValue::Int(i) => *i,
            _ => panic!("not an integer"),
        })
        .collect()
}

fn texts(values: &[SqlValue]) -> Vec<String> {
    values
        .iter()
        .map(|v| match v {
            SqlValue::Text(s) => s.clone(),
            SqlValue::Int(i) => format!("{}", i),
            SqlValue::Bool(b) => format!("{}", b),
            SqlValue::Date(d) => format!("{}", d),
        })
        .collect()
}

fn columns(fields: &[Field]) -> Vec<&'static str> {
    fields.iter().map(|f| f.column).collect()
}

fn ok(statement: Result<Statement, Error>) -> Statement {
    match statement {
        Ok(s) => s,
        Err(_) => panic!("the statement was not built"),
    }
}

#[test]
fn insert_names_the_given_columns_and_returns_the_id() {
    let fields = vec![
        Field { column: "name", value: SqlValue::Text("Novels".to_string()) },
        Field { column: "rank", value: SqlValue::Int(7) },
    ];
    let s = ok(create("Categories", fields));
    assert_eq!(s.sql, r#"INSERT INTO "Categories" ("name", "rank") VALUES (?, ?) RETURNING "id""#);
    assert_eq!(texts(&s.values), vec!["Novels".to_string(), "7".to_string()]);
}

#[test]
fn insert_refuses_lists_of_different_lengths() {
    let s = ok(insert("T", vec!["a", "b"], vec![SqlValue::Int(1), SqlValue::Bool(false)]));
    assert_eq!(s.sql, r#"INSERT INTO "T" ("a", "b") VALUES (?, ?) RETURNING "id""#);
    assert_eq!(texts(&s.values), vec!["1".to_string(), "false".to_string()]);
    assert!(matches!(insert("T", vec!["a", "b"], vec![SqlValue::Int(1)]), Err(Error::SeaQ(_))));
    assert!(matches!(insert("T", vec![], vec![SqlValue::Int(1)]), Err(Error::SeaQ(_))));
    match insert("T", vec!["a"], vec![]) {
        Err(e) => assert!(!e.message().is_empty()),
        Ok(_) => panic!("one column and no value must be refused"),
    }
}

#[test]
fn insert_without_fields_is_still_built() {
    let s = ok(create("Categories", Vec::new()));
    assert!(s.sql.starts_with(r#"INSERT INTO "Categories""#));
    assert!(s.values.is_empty());
}

#[test]
fn get_selects_by_id() {
    let s = get("Books", vec!["id", "title"], 12);
    assert_eq!(s.sql, r#"SELECT "id", "title" FROM "Books" WHERE "id" = ?"#);
    assert_eq!(ints(&s.values), vec![12]);
}

#[test]
fn list_selects_every_row() {
    let s = list("Books", vec!["id", "title"]);
    assert_eq!(s.sql, r#"SELECT "id", "title" FROM "Books""#);
    assert!(s.values.is_empty());
}

#[test]
fn list_where_filters_on_one_column() {
    let s = list_where("Reviews", vec!["id"], "book_id", SqlValue::Int(3));
    assert_eq!(s.sql, r#"SELECT "id" FROM "Reviews" WHERE "book_id" = ?"#);
    assert_eq!(ints(&s.values), vec![3]);
}

#[test]
fn select_joins_filters_with_and() {
    let filters = vec![
        Field { column: "a", value: SqlValue::Int(1) },
        Field { column: "b", value: SqlValue::Bool(true) },
    ];
    let s = select("T", vec!["x"], filters);
    assert_eq!(s.sql, r#"SELECT "x" FROM "T" WHERE "a" = ? AND "b" = ?"#);
    assert_eq!(texts(&s.values), vec!["1".to_string(), "true".to_string()]);
}

#[test]
fn update_sets_only_the_given_columns() {
    let fields = vec![Field { column: "username", value: SqlValue::Text("j.doe".to_string()) }];
    let s = update("Users", 1, fields);
    assert_eq!(s.sql, r#"UPDATE "Users" SET "username" = ? WHERE "id" = ?"#);
    assert_eq!(texts(&s.values), vec!["j.doe".to_string(), "1".to_string()]);
}

#[test]
fn update_where_binds_fields_before_filters() {
    let fields = vec![
        Field { column: "a", value: SqlValue::Int(1) },
        Field { column: "b", value: SqlValue::Int(2) },
    ];
    let filters = vec![
        Field { column: "c", value: SqlValue::Int(3) },
        Field { column: "d", value: SqlValue::Int(4) },
    ];
    let s = update_where("T", fields, filters);
    assert_eq!(s.sql, r#"UPDATE "T" SET "a" = ?, "b" = ? WHERE "c" = ? AND "d" = ?"#);
    assert_eq!(ints(&s.values), vec![1, 2, 3, 4]);
}

#[test]
fn delete_removes_by_id() {
    let s = delete("Books", 5);
    assert_eq!(s.sql, r#"DELETE FROM "Books" WHERE "id" = ?"#);
    assert_eq!(ints(&s.values), vec![5]);
}

#[test]
fn count_binds_the_star() {
    let s = count("Users");
    assert_eq!(s.sql, r#"SELECT COUNT(?) FROM "Users""#);
    assert_eq!(texts(&s.values), vec!["*".to_string()]);
}

#[test]
fn column_names_and_values_keep_the_order() {
    let fields = vec![
        Field { column: "a", value: SqlValue::Int(1) },
        Field { column: "b", value: SqlValue::Int(2) },
        Field { column: "c", value: SqlValue::Int(3) },
    ];
    assert_eq!(column_names(&fields), vec!["a", "b", "c"]);
    assert_eq!(ints(&into_values(fields)), vec![1, 2, 3]);
}

#[test]
fn found_tells_a_missing_row() {
    assert!(matches!(found("Books", 9, Some(4u8)), Ok(4)));
    match found::<u8>("Books", 9, None) {
        Err(Error::EntityNotFound { entity, id }) => {
            assert_eq!(entity, "Books");
            assert_eq!(id, 9);
        }
        _ => panic!("a missing row must be EntityNotFound"),
    }
}

#[test]
fn changed_classifies_the_row_count() {
    match changed("Users", 10, 0) {
        Err(Error::EntityNotFound { entity, id }) => {
            assert_eq!(entity, "Users");
            assert_eq!(id, 10);
        }
        _ => panic!("no row touched must be EntityNotFound"),
    }
    assert!(matches!(changed("Users", 10, 1), Ok(())));
    assert!(matches!(changed("Users", 10, 2), Err(Error::CountFail)));
    assert!(matches!(changed("Users", 10, u64::MAX), Err(Error::CountFail)));
}

#[test]
fn fetched_keeps_the_store_failure_apart() {
    assert!(matches!(fetched(Ok::<i64, String>(3)), Ok(3)));
    match fetched::<i64>(Err("UNIQUE constraint failed".to_string())) {
        Err(Error::Sqlx(text)) => assert_eq!(text, "UNIQUE constraint failed"),
        _ => panic!("a store failure must be Sqlx"),
    }
}

#[test]
fn user_for_create_omits_absent_optionals() {
    let user = UserForCreate {
        name: "John Doe".to_string(),
        role: UserRole::Issuer,
        username: "jdoe".to_string(),
        password: "hashed".to_string(),
        email: "jdoe@example.com".to_string(),
        phone: None,
        photo: Some("p.png".to_string()),
        address: None,
    };
    let fields = user.not_none_fields();
    assert_eq!(columns(&fields), vec!["name", "role", "username", "password", "email", "photo"]);
    assert_eq!(
        texts(&into_values(fields)),
        vec!["John Doe", "issuer", "jdoe", "hashed", "jdoe@example.com", "p.png"]
    );
}

#[test]
fn user_for_update_with_only_username_names_only_username() {
    let user = UserForUpdate { username: Some("j.doe".to_string()), ..Default::default() };
    let fields = user.not_none_fields();
    assert_eq!(columns(&fields), vec!["username"]);
    let s = ok(User::update(1, UserForUpdate { username: Some("j.doe".to_string()), ..Default::default() }));
    assert_eq!(s.sql, r#"UPDATE "Users" SET "username" = ? WHERE "id" = ?"#);
    assert_eq!(texts(&s.values), vec!["j.doe".to_string(), "1".to_string()]);
}

#[test]
fn user_create_stores_a_hash_not_the_password() {
    let user = UserForCreate {
        name: "John Doe".to_string(),
        role: UserRole::Member,
        username: "jdoe".to_string(),
        password: "password".to_string(),
        email: "B0oDZ@example.com".to_string(),
        ..Default::default()
    };
    let s = ok(User::create(user));
    assert_eq!(
        s.sql,
        r#"INSERT INTO "Users" ("name", "role", "username", "password", "email") VALUES (?, ?, ?, ?, ?) RETURNING "id""#
    );
    let values = texts(&s.values);
    assert_eq!(values[0], "John Doe");
    assert_eq!(values[1], "member");
    assert_eq!(values[2], "jdoe");
    assert_ne!(values[3], "password");
    assert!(values[3].starts_with("$argon2id$"));
    assert!(library_api::auth::verify(&values[3], "password").is_ok());
    assert_eq!(values[4], "B0oDZ@example.com");
}

#[test]
fn user_create_hashed_stores_the_given_hash() {
    let user = UserForCreate {
        name: "A".to_string(),
        username: "a".to_string(),
        password: "plain".to_string(),
        email: "a@b".to_string(),
        ..Default::default()
    };
    let s = ok(User::create_hashed(user, "HASH".to_string()));
    assert_eq!(texts(&s.values), vec!["A", "member", "a", "HASH", "a@b"]);
}

#[test]
fn user_update_hashes_a_present_password() {
    let change = UserForUpdate { password: Some("new".to_string()), ..Default::default() };
    let s = ok(User::update(4, change));
    assert_eq!(s.sql, r#"UPDATE "Users" SET "password" = ? WHERE "id" = ?"#);
    let values = texts(&s.values);
    assert!(library_api::auth::verify(&values[0], "new").is_ok());
    assert_eq!(values[1], "4");
}

#[test]
fn user_projections_select_their_columns() {
    let s = User::get::<UserForLogin>(1);
    assert_eq!(s.sql, r#"SELECT "username", "password" FROM "Users" WHERE "id" = ?"#);
    let s = User::get::<User>(1);
    assert_eq!(
        s.sql,
        r#"SELECT "id", "name", "role", "username", "password", "email", "phone", "photo", "address", "updated_at", "created_at" FROM "Users" WHERE "id" = ?"#
    );
    let s = User::get_by_username::<UserForLogin>("johndoe".to_string());
    assert_eq!(s.sql, r#"SELECT "username", "password" FROM "Users" WHERE "username" = ?"#);
    assert_eq!(texts(&s.values), vec!["johndoe".to_string()]);
    let s = User::list::<UserForLogin>();
    assert_eq!(s.sql, r#"SELECT "username", "password" FROM "Users""#);
    assert_eq!(User::count().sql, r#"SELECT COUNT(?) FROM "Users""#);
    assert_eq!(User::delete(3).sql, r#"DELETE FROM "Users" WHERE "id" = ?"#);
}

#[test]
fn book_statements() {
    let book = BookForCreate {
        title: "Book 1".to_string(),
        author: "Author".to_string(),
        isbn: "123".to_string(),
        category: None,
        year: Some(1999),
        photo: None,
        count: 3,
    };
    let s = ok(Book::create(book));
    assert_eq!(
        s.sql,
        r#"INSERT INTO "Books" ("title", "author", "isbn", "year") VALUES (?, ?, ?, ?) RETURNING "id""#
    );
    assert_eq!(texts(&s.values), vec!["Book 1", "Author", "123", "1999"]);
    let change = BookForUpdate {
        title: None,
        author: None,
        isbn: None,
        category: Some("Novel".to_string()),
        year: None,
        photo: None,
        count: 0,
    };
    let s = Book::update(2, change);
    assert_eq!(s.sql, r#"UPDATE "Books" SET "category" = ? WHERE "id" = ?"#);
    assert_eq!(
        Book::get(1).sql,
        r#"SELECT "id", "title", "author", "isbn", "category", "year", "photo", "updated_at", "added_at" FROM "Books" WHERE "id" = ?"#
    );
    assert_eq!(
        Book::list().sql,
        r#"SELECT "id", "title", "author", "isbn", "category", "year", "photo", "updated_at", "added_at" FROM "Books""#
    );
    assert_eq!(Book::delete(1).sql, r#"DELETE FROM "Books" WHERE "id" = ?"#);
}

#[test]
fn copy_statements_use_both_keys() {
    let s = Book::get_copy(7, 2);
    assert_eq!(
        s.sql,
        r#"SELECT "id", "book_id", "status", "location", "updated_at", "added_at" FROM "BookCopies" WHERE "id" = ? AND "book_id" = ?"#
    );
    assert_eq!(ints(&s.values), vec![7, 2]);
    let s = Book::update_copy(
        7,
        2,
        BookCopyForUpdate { status: Some(BorrowStatus::Reserved), location: None },
    );
    assert_eq!(s.sql, r#"UPDATE "BookCopies" SET "status" = ? WHERE "id" = ? AND "book_id" = ?"#);
    assert_eq!(texts(&s.values), vec!["reserved", "7", "2"]);
    let s = Book::list_copies(2);
    assert_eq!(
        s.sql,
        r#"SELECT "id", "book_id", "status", "location", "updated_at", "added_at" FROM "BookCopies" WHERE "book_id" = ?"#
    );
    let s = ok(Book::add_copy(BookCopyForCreate {
        book_id: 2,
        status: None,
        location: Some("A1".to_string()),
    }));
    assert_eq!(s.sql, r#"INSERT INTO "BookCopies" ("book_id", "location") VALUES (?, ?) RETURNING "id""#);
}

#[test]
fn three_copies_for_a_count_of_three() {
    let copies = Book::copies_for(41, 3);
    assert_eq!(copies.len(), 3);
    for copy in &copies {
        assert_eq!(copy.book_id, 41);
        assert!(copy.status.is_none());
        assert!(copy.location.is_none());
    }
    assert!(Book::copies_for(41, 0).is_empty());
    assert!(Book::copies_for(41, -2).is_empty());
    assert_eq!(Book::copies_for(41, 1).len(), 1);
}

#[test]
fn claim_is_conditional_on_available() {
    let s = claim_copy(7, 2);
    assert_eq!(
        s.sql,
        r#"UPDATE "BookCopies" SET "status" = ? WHERE "id" = ? AND "book_id" = ? AND "status" = ?"#
    );
    assert_eq!(texts(&s.values), vec!["borrowed", "7", "2", "available"]);
}

#[test]
fn borrowing_statements() {
    let s = ok(Borrowing::create(BorrowingForCreate { user_id: 1, book_id: 2, copy_id: 3 }));
    assert_eq!(
        s.sql,
        r#"INSERT INTO "Borrowing" ("user_id", "book_id", "copy_id") VALUES (?, ?, ?) RETURNING "id""#
    );
    assert_eq!(ints(&s.values), vec![1, 2, 3]);
    let cols = r#""id", "user_id", "book_id", "copy_id", "borrow_date", "return_date", "status""#;
    assert_eq!(Borrowing::get(1).sql, format!(r#"SELECT {} FROM "Borrowing" WHERE "id" = ?"#, cols));
    assert_eq!(
        Borrowing::list_by_user(1).sql,
        format!(r#"SELECT {} FROM "Borrowing" WHERE "user_id" = ?"#, cols)
    );
    assert_eq!(
        Borrowing::list_by_book(1).sql,
        format!(r#"SELECT {} FROM "Borrowing" WHERE "book_id" = ?"#, cols)
    );
    let s = Borrowing::list_by_status(BorrowingStatus::Late);
    assert_eq!(s.sql, format!(r#"SELECT {} FROM "Borrowing" WHERE "status" = ?"#, cols));
    assert_eq!(texts(&s.values), vec!["late".to_string()]);
    let s = Borrowing::list_by_book_copy(5, 6);
    assert_eq!(
        s.sql,
        format!(r#"SELECT {} FROM "Borrowing" WHERE "book_id" = ? AND "copy_id" = ?"#, cols)
    );
    assert_eq!(ints(&s.values), vec![5, 6]);
    let date = chrono::NaiveDate::from_ymd_opt(2024, 2, 29).unwrap();
    let s = Borrowing::update(
        9,
        BorrowingForUpdate { return_date: Some(date), status: Some(BorrowingStatus::Returned) },
    );
    assert_eq!(s.sql, r#"UPDATE "Borrowing" SET "return_date" = ?, "status" = ? WHERE "id" = ?"#);
    assert_eq!(texts(&s.values), vec!["2024-02-29", "returned", "9"]);
}

#[test]
fn reservation_statements() {
    let s = ok(Reservation::create(ReservationForCreate {
        copy_id: 1,
        book_id: 2,
        user_id: 3,
        reservation_date: None,
    }));
    assert_eq!(
        s.sql,
        r#"INSERT INTO "Reservations" ("copy_id", "book_id", "user_id") VALUES (?, ?, ?) RETURNING "id""#
    );
    let s = Reservation::update(4, ReservationForUpdate { status: ReservationStatus::Cancelled });
    assert_eq!(s.sql, r#"UPDATE "Reservations" SET "status" = ? WHERE "id" = ?"#);
    assert_eq!(texts(&s.values), vec!["cancelled", "4"]);
    let cols = r#""id", "copy_id", "book_id", "user_id", "reservation_date", "status", "updated_at""#;
    assert_eq!(Reservation::get(1).sql, format!(r#"SELECT {} FROM "Reservations" WHERE "id" = ?"#, cols));
    assert_eq!(Reservation::list().sql, format!(r#"SELECT {} FROM "Reservations""#, cols));
    assert_eq!(
        Reservation::list_by_user(1).sql,
        format!(r#"SELECT {} FROM "Reservations" WHERE "user_id" = ?"#, cols)
    );
}

#[test]
fn review_statements() {
    let s = ok(Review::create(ReviewForCreate {
        user_id: 1,
        book_id: 2,
        rating: -3,
        review_text: "fine".to_string(),
    }));
    assert_eq!(
        s.sql,
        r#"INSERT INTO "Reviews" ("user_id", "book_id", "rating", "review_text") VALUES (?, ?, ?, ?) RETURNING "id""#
    );
    assert_eq!(texts(&s.values), vec!["1", "2", "-3", "fine"]);
    let s = Review::update(
        8,
        ReviewForUpdate { user_id: None, book_id: None, rating: Some(5), review_text: None },
    );
    assert_eq!(s.sql, r#"UPDATE "Reviews" SET "rating" = ? WHERE "id" = ?"#);
    assert_eq!(ints(&s.values), vec![5, 8]);
    let cols = r#""id", "user_id", "book_id", "rating", "review_text", "updated_at", "created_at""#;
    assert_eq!(Review::get(1).sql, format!(r#"SELECT {} FROM "Reviews" WHERE "id" = ?"#, cols));
    assert_eq!(Review::list().sql, format!(r#"SELECT {} FROM "Reviews""#, cols));
    assert_eq!(
        Review::list_by_book(1).sql,
        format!(r#"SELECT {} FROM "Reviews" WHERE "book_id" = ?"#, cols)
    );
    assert_eq!(
        Review::list_by_user(1).sql,
        format!(r#"SELECT {} FROM "Reviews" WHERE "user_id" = ?"#, cols)
    );
}

#[test]
fn category_statements() {
    let s = ok(Category::create(CategoryForUpdate { name: "Novels".to_string() }));
    assert_eq!(s.sql, r#"INSERT INTO "Categories" ("name") VALUES (?) RETURNING "id""#);
    let s = Category::update(2, CategoryForUpdate { name: "Poems".to_string() });
    assert_eq!(s.sql, r#"UPDATE "Categories" SET "name" = ? WHERE "id" = ?"#);
    assert_eq!(texts(&s.values), vec!["Poems", "2"]);
    assert_eq!(
        Category::get(1).sql,
        r#"SELECT "id", "name", "updated_at" FROM "Categories" WHERE "id" = ?"#
    );
    assert_eq!(Category::list().sql, r#"SELECT "id", "name", "updated_at" FROM "Categories""#);
}

#[test]
fn status_names_are_lower_case() {
    assert_eq!(BorrowStatus::Available.as_str(), "available");
    assert_eq!(BorrowStatus::Borrowed.as_str(), "borrowed");
    assert_eq!(BorrowStatus::Reserved.as_str(), "reserved");
    assert_eq!(BorrowStatus::default(), BorrowStatus::Available);
    assert_eq!(BorrowingStatus::Borrowed.as_str(), "borrowed");
    assert_eq!(BorrowingStatus::Returned.as_str(), "returned");
    assert_eq!(BorrowingStatus::Late.as_str(), "late");
    assert_eq!(BorrowingStatus::default(), BorrowingStatus::Borrowed);
    assert_eq!(ReservationStatus::Pending.as_str(), "pending");
    assert_eq!(ReservationStatus::Active.as_str(), "active");
    assert_eq!(ReservationStatus::Declined.as_str(), "declined");
    assert_eq!(ReservationStatus::Expired.as_str(), "expired");
    assert_eq!(ReservationStatus::Cancelled.as_str(), "cancelled");
    assert_eq!(UserRole::Member.as_str(), "member");
    assert_eq!(UserRole::Issuer.as_str(), "issuer");
    assert_eq!(UserRole::Admin.as_str(), "admin");
    assert_eq!(UserRole::default(), UserRole::Member);
}

#[test]
fn each_entity_reads_its_own_answers() {
    assert!(matches!(Book::found(1, Some(7u8)), Ok(7)));
    assert!(matches!(
        Book::found::<u8>(1, None),
        Err(Error::EntityNotFound { entity: "Books", id: 1 })
    ));
    assert!(matches!(
        Book::found_copy::<u8>(4, None),
        Err(Error::EntityNotFound { entity: "BookCopies", id: 4 })
    ));
    assert!(matches!(Book::found_copy(4, Some(7u8)), Ok(7)));
    assert!(matches!(Book::changed(1, 1), Ok(())));
    assert!(matches!(Book::changed(1, 0), Err(Error::EntityNotFound { entity: "Books", id: 1 })));
    assert!(matches!(Book::changed(1, 3), Err(Error::CountFail)));
    assert!(matches!(
        Book::copy_changed(4, 0),
        Err(Error::EntityNotFound { entity: "BookCopies", id: 4 })
    ));
    assert!(matches!(Book::copy_changed(4, 1), Ok(())));
    assert!(matches!(Book::copy_changed(4, 2), Err(Error::CountFail)));
    assert!(matches!(
        User::found::<u8>(10, None),
        Err(Error::EntityNotFound { entity: "Users", id: 10 })
    ));
    assert!(matches!(User::changed(10, 0), Err(Error::EntityNotFound { entity: "Users", id: 10 })));
    assert!(matches!(User::changed(10, 1), Ok(())));
    assert!(matches!(
        Borrowing::found::<u8>(2, None),
        Err(Error::EntityNotFound { entity: "Borrowing", id: 2 })
    ));
    assert!(matches!(
        Borrowing::changed(2, 0),
        Err(Error::EntityNotFound { entity: "Borrowing", id: 2 })
    ));
    assert!(matches!(
        Category::found::<u8>(2, None),
        Err(Error::EntityNotFound { entity: "Categories", id: 2 })
    ));
    assert!(matches!(Category::changed(2, 2), Err(Error::CountFail)));
    assert!(matches!(
        Reservation::found::<u8>(2, None),
        Err(Error::EntityNotFound { entity: "Reservations", id: 2 })
    ));
    assert!(matches!(
        Reservation::changed(2, 0),
        Err(Error::EntityNotFound { entity: "Reservations", id: 2 })
    ));
    assert!(matches!(
        Review::found::<u8>(2, None),
        Err(Error::EntityNotFound { entity: "Reviews", id: 2 })
    ));
    assert!(matches!(Review::changed(2, 1), Ok(())));
}
