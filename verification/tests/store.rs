use library_api::model::book::{Book, BookForCreate};
use library_api::model::borrowing::{Borrowing, BorrowingForCreate};
use library_api::model::error::Error;
use library_api::model::user::{User, UserForCreate, UserForLogin, UserForUpdate, UserRole};
use library_api::model::{fetched, SqlValue, Statement};
use library_api::routes::book::{claim_copy, claimed};
use library_api::routes::Reply;
use sqlx::sqlite::{SqliteArguments, SqlitePoolOptions, SqliteRow};
use sqlx::{Row, Sqlite, SqlitePool};

const SCHEMA: [&str; 6] = [
    "CREATE TABLE Users (
        id INTEGER PRIMARY KEY AUTOINCREMENT,
        name TEXT NOT NULL,
        role TEXT NOT NULL DEFAULT 'member',
        username TEXT NOT NULL UNIQUE,
        password TEXT NOT NULL,
        email TEXT NOT NULL UNIQUE,
        phone TEXT,
        photo TEXT,
        address TEXT,
        updated_at DATETIME,
        created_at DATETIME NOT NULL DEFAULT CURRENT_TIMESTAMP
    )",
    "CREATE TRIGGER users_touch AFTER UPDATE ON Users BEGIN
        UPDATE Users SET updated_at = strftime('%Y-%m-%d %H:%M:%f', 'now') WHERE id = NEW.id;
    END",
    "CREATE TABLE Books (
        id INTEGER PRIMARY KEY AUTOINCREMENT,
        title TEXT NOT NULL,
        author TEXT NOT NULL,
        isbn TEXT NOT NULL,
        category TEXT,
        year INTEGER,
        photo TEXT,
        updated_at DATETIME,
        added_at DATETIME NOT NULL DEFAULT CURRENT_TIMESTAMP
    )",
    "CREATE TABLE BookCopies (
        id INTEGER PRIMARY KEY AUTOINCREMENT,
        book_id INTEGER NOT NULL REFERENCES Books(id),
        status TEXT DEFAULT 'available',
        location TEXT,
        updated_at DATETIME,
        added_at DATETIME NOT NULL DEFAULT CURRENT_TIMESTAMP
    )",
    "CREATE TABLE Borrowing (
        id INTEGER PRIMARY KEY AUTOINCREMENT,
        user_id INTEGER NOT NULL,
        book_id INTEGER NOT NULL,
        copy_id INTEGER NOT NULL,
        borrow_date DATE NOT NULL DEFAULT CURRENT_DATE,
        return_date DATE,
        status TEXT NOT NULL DEFAULT 'borrowed'
    )",
    "PRAGMA foreign_keys = ON",
];

const USERS: &str = "INSERT INTO Users (name, role, username, password, email)
    VALUES ('John Doe', 'admin', 'johndoe', 'x', 'johndoe@localhost')";

const BOOKS: &str = "INSERT INTO Books (title, author, isbn) VALUES ('Book 1', 'Author 1', '1')";

fn run<F: std::future::Future>(f: F) -> F::Output {
    tokio::runtime::Builder::new_current_thread().enable_all().build().unwrap().block_on(f)
}

async fn store(fixtures: &[&str]) -> SqlitePool {
    let pool = SqlitePoolOptions::new().max_connections(1).connect("sqlite::memory:").await.unwrap();
    for statement in SCHEMA.iter().chain(fixtures.iter()) {
        sqlx::query(statement).execute(&pool).await.unwrap();
    }
    pool
}

fn bound(statement: &Statement) -> sqlx::query::Query<'_, Sqlite, SqliteArguments<'_>> {
    let mut query = sqlx::query(&statement.sql);
    for value in &statement.values {
        query = match value {
            SqlValue::Int(i) => query.bind(*i),
            SqlValue::Text(s) => query.bind(s.as_str()),
            SqlValue::Bool(b) => query.bind(*b),
            SqlValue::Date(d) => query.bind(*d),
        };
    }
    query
}

async fn insert(pool: &SqlitePool, statement: Result<Statement, Error>) -> Result<i64, Error> {
    let statement = statement?;
    let answer = bound(&statement)
        .fetch_one(pool)
        .await
        .map(|row| row.get::<i64, _>(0))
        .map_err(|e| e.to_string());
    fetched(answer)
}

async fn one(pool: &SqlitePool, statement: Statement) -> Option<SqliteRow> {
    bound(&statement).fetch_optional(pool).await.unwrap()
}

async fn all(pool: &SqlitePool, statement: Statement) -> Vec<SqliteRow> {
    bound(&statement).fetch_all(pool).await.unwrap()
}

async fn affected(pool: &SqlitePool, statement: Statement) -> u64 {
    bound(&statement).execute(pool).await.unwrap().rows_affected()
}

fn new_user(username: &str, email: &str) -> UserForCreate {
    UserForCreate {
        name: "John Doe".to_string(),
        role: UserRole::Member,
        username: username.to_string(),
        password: "password".to_string(),
        email: email.to_string(),
        ..Default::default()
    }
}

#[test]
fn getting_book_by_id() {
    run(async {
        let pool = store(&[BOOKS]).await;
        let row = one(&pool, Book::get(1)).await;
        let book = Book::found(1, row).unwrap_or_else(|_| panic!("book 1 is stored"));
        assert_eq!(&book.get::<String, _>("title"), "Book 1");
    })
}

#[test]
fn getting_user_by_id() {
    run(async {
        let pool = store(&[USERS]).await;
        let row = one(&pool, User::get::<UserForLogin>(1)).await;
        let user = User::found(1, row).unwrap_or_else(|_| panic!("user 1 is stored"));
        assert_eq!(&user.get::<String, _>("username"), "johndoe");
    })
}

#[test]
#[should_panic]
fn getting_user_by_id_fail() {
    run(async {
        let pool = store(&[USERS]).await;
        let row = one(&pool, User::get::<UserForLogin>(10)).await;
        let _ = User::found(10, row).map_err(|_| "not found").unwrap();
    })
}

#[test]
fn getting_user_by_username() {
    run(async {
        let pool = store(&[USERS]).await;
        let user = one(&pool, User::get_by_username::<UserForLogin>("johndoe".to_string())).await;
        assert!(&user.is_some());
    })
}

#[test]
fn getting_user_by_username_fail() {
    run(async {
        let pool = store(&[USERS]).await;
        let user = one(&pool, User::get_by_username::<UserForLogin>("jdoe".to_string())).await;
        assert!(&user.is_none());
    })
}

#[test]
fn create_user() {
    run(async {
        let pool = store(&[]).await;
        let user = new_user("jdoe", "B0oDZ@example.com");
        let id = insert(&pool, User::create(user)).await.unwrap_or_else(|_| panic!("not created"));
        assert_eq!(id, 1);
    })
}

#[test]
#[should_panic]
fn create_user_email_fail() {
    run(async {
        let pool = store(&[USERS]).await;
        let user = new_user("jdoe", "johndoe@localhost");
        let _ = insert(&pool, User::create(user)).await.map_err(|_| "refused").unwrap();
    })
}

#[test]
#[should_panic]
fn create_user_username_fail() {
    run(async {
        let pool = store(&[USERS]).await;
        let user = new_user("johndoe", "B0oDZ@example.com");
        let _ = insert(&pool, User::create(user)).await.map_err(|_| "refused").unwrap();
    })
}

#[test]
fn update_user() {
    run(async {
        let pool = store(&[USERS]).await;
        let before = chrono::Utc::now().naive_utc();
        tokio::time::sleep(std::time::Duration::from_millis(800)).await;

        let user = UserForUpdate { username: Some("j.doe".to_string()), ..Default::default() };
        let statement = User::update(1, user).unwrap_or_else(|_| panic!("not built"));
        let rows = affected(&pool, statement).await;
        assert!(User::changed(1, rows).is_ok());

        let after = chrono::Utc::now().naive_utc();

        let user = one(&pool, User::get::<User>(1)).await.unwrap();
        assert_eq!(&user.get::<String, _>("username"), "j.doe");
        let updated_at = user.get::<Option<chrono::NaiveDateTime>, _>("updated_at");
        assert!(before < updated_at.unwrap());
        assert!(after > updated_at.unwrap());
        assert_eq!(&user.get::<String, _>("email"), "johndoe@localhost");
        assert_eq!(&user.get::<String, _>("name"), "John Doe");
        assert_eq!(&user.get::<String, _>("role"), "admin");
    })
}

#[test]
fn created_user_is_read_back_as_provided() {
    run(async {
        let pool = store(&[USERS]).await;
        let user = UserForCreate {
            name: "Jane".to_string(),
            role: UserRole::Issuer,
            username: "jane".to_string(),
            password: "pw".to_string(),
            email: "jane@example.com".to_string(),
            phone: Some("123".to_string()),
            photo: None,
            address: None,
        };
        let id = insert(&pool, User::create(user)).await.unwrap_or_else(|_| panic!("not created"));
        assert_eq!(id, 2);
        let row = one(&pool, User::get::<User>(id)).await.unwrap();
        assert_eq!(row.get::<i64, _>("id"), 2);
        assert_eq!(&row.get::<String, _>("name"), "Jane");
        assert_eq!(&row.get::<String, _>("role"), "issuer");
        assert_eq!(&row.get::<String, _>("username"), "jane");
        assert_eq!(&row.get::<String, _>("email"), "jane@example.com");
        assert_eq!(row.get::<Option<String>, _>("phone"), Some("123".to_string()));
        assert_eq!(row.get::<Option<String>, _>("photo"), None);
        let stored = row.get::<String, _>("password");
        assert_ne!(stored, "pw");
        assert!(library_api::auth::verify(&stored, "pw").is_ok());
    })
}

#[test]
fn update_of_a_missing_user_changes_nothing() {
    run(async {
        let pool = store(&[USERS]).await;
        let user = UserForUpdate { username: Some("ghost".to_string()), ..Default::default() };
        let statement = User::update(10, user).unwrap_or_else(|_| panic!("not built"));
        let rows = affected(&pool, statement).await;
        match User::changed(10, rows) {
            Err(Error::EntityNotFound { entity, id }) => {
                assert_eq!(entity, "Users");
                assert_eq!(id, 10);
            }
            _ => panic!("a missing user must be EntityNotFound"),
        }
        let row = one(&pool, User::get::<User>(1)).await.unwrap();
        assert_eq!(&row.get::<String, _>("username"), "johndoe");
        assert_eq!(all(&pool, User::list::<UserForLogin>()).await.len(), 1);
    })
}

#[test]
fn delete_tells_a_missing_row() {
    run(async {
        let pool = store(&[USERS]).await;
        let rows = affected(&pool, User::delete(10)).await;
        assert!(matches!(User::changed(10, rows), Err(Error::EntityNotFound { .. })));
        let rows = affected(&pool, User::delete(1)).await;
        assert!(User::changed(1, rows).is_ok());
        assert!(one(&pool, User::get::<User>(1)).await.is_none());
    })
}

#[test]
fn count_counts_the_users() {
    run(async {
        let pool = store(&[]).await;
        let row = one(&pool, User::count()).await.unwrap();
        assert_eq!(row.get::<i64, _>(0), 0);
        let pool = store(&[USERS]).await;
        let row = one(&pool, User::count()).await.unwrap();
        assert_eq!(row.get::<i64, _>(0), 1);
    })
}

#[test]
fn book_with_three_copies() {
    run(async {
        let pool = store(&[BOOKS]).await;
        let book = BookForCreate {
            title: "Book 2".to_string(),
            author: "Author 2".to_string(),
            isbn: "2".to_string(),
            category: None,
            year: Some(2001),
            photo: None,
            count: 3,
        };
        let count = book.count;
        let id = insert(&pool, Book::create(book)).await.unwrap_or_else(|_| panic!("not created"));
        assert_eq!(id, 2);
        for copy in Book::copies_for(id, count) {
            assert!(insert(&pool, Book::add_copy(copy)).await.is_ok());
        }
        let copies = all(&pool, Book::list_copies(id)).await;
        assert_eq!(copies.len(), 3);
        for copy in &copies {
            assert_eq!(copy.get::<i64, _>("book_id"), 2);
            assert_eq!(copy.get::<Option<String>, _>("status"), Some("available".to_string()));
        }
        assert!(all(&pool, Book::list_copies(1)).await.is_empty());
        let row = one(&pool, Book::get(id)).await.unwrap();
        assert_eq!(&row.get::<String, _>("title"), "Book 2");
        assert_eq!(row.get::<Option<i32>, _>("year"), Some(2001));
    })
}

#[test]
fn a_copy_is_claimed_once() {
    run(async {
        let pool = store(&[BOOKS, USERS]).await;
        for copy in Book::copies_for(1, 1) {
            assert!(insert(&pool, Book::add_copy(copy)).await.is_ok());
        }
        assert!(one(&pool, Book::get_copy(1, 1)).await.is_some());
        assert!(one(&pool, Book::get_copy(1, 2)).await.is_none());

        let first = affected(&pool, claim_copy(1, 1)).await;
        assert_eq!(claimed(first), None);
        let borrowing = BorrowingForCreate { user_id: 1, book_id: 1, copy_id: 1 };
        let id = insert(&pool, Borrowing::create(borrowing)).await;
        assert!(matches!(id, Ok(1)));

        let second = affected(&pool, claim_copy(1, 1)).await;
        assert_eq!(
            claimed(second),
            Some(Reply::Failure { status: 409, error: "Book copy is not available" })
        );

        let copy = one(&pool, Book::get_copy(1, 1)).await.unwrap();
        assert_eq!(copy.get::<Option<String>, _>("status"), Some("borrowed".to_string()));
        let rows = all(&pool, Borrowing::list_by_book_copy(1, 1)).await;
        assert_eq!(rows.len(), 1);
        assert_eq!(&rows[0].get::<String, _>("status"), "borrowed");
        assert_eq!(all(&pool, Borrowing::list_by_user(1)).await.len(), 1);
        assert_eq!(all(&pool, Borrowing::list_by_user(2)).await.len(), 0);
    })
}
