//! Users: roles, the field sets of a registration and of a change, and
//! the statements on the `Users` table.

use vstd::prelude::*;
use chrono::NaiveDateTime;
use crate::auth::{argon2_accepts, hash};
use crate::model::error::Error;
use crate::model::{
    Field, FieldView, SqlValue, SqlValueView, Statement, changed_spec, columns_of, count_spec,
    delete_spec, found_spec, id_is, insert_spec, lemma_named, names, present, push_field,
    push_text, select_spec, text_of, update_spec,
};
use crate::text::same_text;

verus! {

/// The table that holds the users.
pub open spec fn users() -> Seq<char> {
    "Users"@
}

/// What a user may do.
#[derive(Debug, Clone, Copy, PartialEq, Eq, Structural)]
pub enum UserRole {
    Member,
    Issuer,
    Admin,
}

impl Default for UserRole {
    fn default() -> (r: UserRole)
        ensures
            r == UserRole::Member,
    {
        UserRole::Member
    }
}

impl UserRole {
    /// The lower-case text under which a role is stored and sent.
    pub open spec fn name(self) -> Seq<char> {
        match self {
            UserRole::Member => "member"@,
            UserRole::Issuer => "issuer"@,
            UserRole::Admin => "admin"@,
        }
    }

    /// The role that a text names, if it names one.
    pub open spec fn named(text: Seq<char>) -> Option<UserRole> {
        if text == "member"@ {
            Some(UserRole::Member)
        } else if text == "issuer"@ {
            Some(UserRole::Issuer)
        } else if text == "admin"@ {
            Some(UserRole::Admin)
        } else {
            None
        }
    }

    /// The text of a role.
    pub fn as_str(self) -> (r: &'static str)
        ensures
            r@ == self.name(),
    {
        match self {
            UserRole::Member => "member",
            UserRole::Issuer => "issuer",
            UserRole::Admin => "admin",
        }
    }

    /// Reads a role from its text; any other text names no role.
    pub fn parse(text: &str) -> (r: Option<UserRole>)
        ensures
            r == UserRole::named(text@),
    {
        if same_text(text, "member") {
            Some(UserRole::Member)
        } else if same_text(text, "issuer") {
            Some(UserRole::Issuer)
        } else if same_text(text, "admin") {
            Some(UserRole::Admin)
        } else {
            None
        }
    }

    /// The value a role is bound as: its text.
    pub fn value(self) -> (r: SqlValue)
        ensures
            r@ == SqlValueView::Text(self.name()),
    {
        SqlValue::Text(self.as_str().to_string())
    }

    /// Every role is read back from its own text, and a text names at
    /// most the role whose text it is.
    pub proof fn names_round_trip(role: UserRole)
        ensures
            UserRole::named(role.name()) == Some(role),
            forall|text: Seq<char>| UserRole::named(text) == Some(role) ==> text == role.name(),
    {
        reveal_strlit("member");
        reveal_strlit("issuer");
        reveal_strlit("admin");
        assert("member"@.len() == 6 && "admin"@.len() == 5 && "issuer"@.len() == 6);
        assert("member"@[0] == 'm' && "issuer"@[0] == 'i');
    }
}

/// A stored user.
#[derive(Debug)]
pub struct User {
    pub id: i64,
    pub name: String,
    pub role: UserRole,
    pub username: String,
    /// The hash of the password, never the password.
    pub password: String,
    pub email: String,
    pub phone: Option<String>,
    pub photo: Option<String>,
    pub address: Option<String>,
    pub updated_at: Option<NaiveDateTime>,
    pub created_at: NaiveDateTime,
}

/// What a registration provides.
#[derive(Debug)]
pub struct UserForCreate {
    pub name: String,
    pub role: UserRole,
    pub username: String,
    pub password: String,
    pub email: String,
    pub phone: Option<String>,
    pub photo: Option<String>,
    pub address: Option<String>,
}

/// What a change of a user may provide; an absent attribute is left as it is.
#[derive(Debug)]
pub struct UserForUpdate {
    pub name: Option<String>,
    pub role: Option<UserRole>,
    pub username: Option<String>,
    pub password: Option<String>,
    pub email: Option<String>,
    pub phone: Option<String>,
    pub photo: Option<String>,
    pub address: Option<String>,
}

/// What a login provides, and the part of a user a login reads.
#[derive(Debug)]
pub struct UserForLogin {
    pub username: String,
    pub password: String,
}

/// A change of password: the old one and the new one.
#[derive(Debug)]
pub struct PasswordUpdate {
    pub old: String,
    pub new: String,
}

impl Default for UserForCreate {
    fn default() -> (r: UserForCreate)
        ensures
            r.name@.len() == 0,
            r.role == UserRole::Member,
            r.username@.len() == 0,
            r.password@.len() == 0,
            r.email@.len() == 0,
            r.phone is None,
            r.photo is None,
            r.address is None,
    {
        UserForCreate {
            name: String::new(),
            role: UserRole::Member,
            username: String::new(),
            password: String::new(),
            email: String::new(),
            phone: None,
            photo: None,
            address: None,
        }
    }
}

impl Default for UserForUpdate {
    fn default() -> (r: UserForUpdate)
        ensures
            r.name is None,
            r.role is None,
            r.username is None,
            r.password is None,
            r.email is None,
            r.phone is None,
            r.photo is None,
            r.address is None,
    {
        UserForUpdate {
            name: None,
            role: None,
            username: None,
            password: None,
            email: None,
            phone: None,
            photo: None,
            address: None,
        }
    }
}

/// The text value of a role that may be absent.
pub open spec fn role_of(role: Option<UserRole>) -> Option<SqlValueView> {
    match role {
        Some(r) => Some(SqlValueView::Text(r.name())),
        None => None,
    }
}

impl UserForCreate {
    /// The fields of a registration whose password column holds
    /// `password`: the five required attributes, then each optional one
    /// that is present.
    pub open spec fn fields_with(self, password: Seq<char>) -> Seq<FieldView> {
        present("name"@, Some(SqlValueView::Text(self.name@)))
            + present("role"@, Some(SqlValueView::Text(self.role.name())))
            + present("username"@, Some(SqlValueView::Text(self.username@)))
            + present("password"@, Some(SqlValueView::Text(password)))
            + present("email"@, Some(SqlValueView::Text(self.email@)))
            + present("phone"@, text_of(self.phone))
            + present("photo"@, text_of(self.photo))
            + present("address"@, text_of(self.address))
    }

    /// The fields of a registration as it stands.
    pub open spec fn spec_fields(self) -> Seq<FieldView> {
        self.fields_with(self.password@)
    }

    /// The present attributes as fields, in the order of declaration.
    pub fn not_none_fields(self) -> (r: Vec<Field>)
        ensures
            crate::model::fields_view(r@) == self.spec_fields(),
    {
        let mut fields: Vec<Field> = Vec::new();
        assert(crate::model::fields_view(fields@) =~= Seq::empty());
        push_text(&mut fields, "name", Some(self.name));
        push_field(&mut fields, "role", Some(self.role.value()));
        push_text(&mut fields, "username", Some(self.username));
        push_text(&mut fields, "password", Some(self.password));
        push_text(&mut fields, "email", Some(self.email));
        push_text(&mut fields, "phone", self.phone);
        push_text(&mut fields, "photo", self.photo);
        push_text(&mut fields, "address", self.address);
        assert(crate::model::fields_view(fields@) =~= self.spec_fields());
        fields
    }
}

impl UserForUpdate {
    /// The fields of a change whose password, if one is present, is
    /// replaced by `password`.
    pub open spec fn fields_with(self, password: Option<Seq<char>>) -> Seq<FieldView> {
        present("name"@, text_of(self.name))
            + present("role"@, role_of(self.role))
            + present("username"@, text_of(self.username))
            + present(
            "password"@,
            match password {
                Some(p) => Some(SqlValueView::Text(p)),
                None => None,
            },
        ) + present("email"@, text_of(self.email))
            + present("phone"@, text_of(self.phone))
            + present("photo"@, text_of(self.photo))
            + present("address"@, text_of(self.address))
    }

    /// Whether a change provides the column `c`.
    pub open spec fn provides(self, c: Seq<char>) -> bool {
        ||| c == "name"@ && self.name is Some
        ||| c == "role"@ && self.role is Some
        ||| c == "username"@ && self.username is Some
        ||| c == "password"@ && self.password is Some
        ||| c == "email"@ && self.email is Some
        ||| c == "phone"@ && self.phone is Some
        ||| c == "photo"@ && self.photo is Some
        ||| c == "address"@ && self.address is Some
    }

    /// The fields of a change name exactly the columns that it
    /// provides, whatever a present password is replaced by: an absent
    /// attribute is named by no field, and so keeps its stored value.
    pub proof fn names_what_it_provides(self, password: Seq<char>, c: Seq<char>)
        ensures
            columns_of(self.spec_fields()).contains(c) <==> self.provides(c),
            self.password is Some ==> (columns_of(self.fields_with(Some(password))).contains(c)
                <==> self.provides(c)),
    {
        self.named_with(
            match self.password {
                Some(p) => Some(p@),
                None => None,
            },
            c,
        );
        if self.password is Some {
            self.named_with(Some(password), c);
        }
    }

    proof fn named_with(self, password: Option<Seq<char>>, c: Seq<char>)
        requires
            password is Some <==> self.password is Some,
        ensures
            columns_of(self.fields_with(password)).contains(c) <==> self.provides(c),
    {
        let p1 = present("name"@, text_of(self.name));
        let p2 = present("role"@, role_of(self.role));
        let p3 = present("username"@, text_of(self.username));
        let p4 = present(
            "password"@,
            match password {
                Some(p) => Some(SqlValueView::Text(p)),
                None => None,
            },
        );
        let p5 = present("email"@, text_of(self.email));
        let p6 = present("phone"@, text_of(self.phone));
        let p7 = present("photo"@, text_of(self.photo));
        assert(Seq::<FieldView>::empty() + p1 =~= p1);
        lemma_named(Seq::empty(), "name"@, text_of(self.name), c);
        lemma_named(p1, "role"@, role_of(self.role), c);
        lemma_named(p1 + p2, "username"@, text_of(self.username), c);
        lemma_named(
            p1 + p2 + p3,
            "password"@,
            match password {
                Some(p) => Some(SqlValueView::Text(p)),
                None => None,
            },
            c,
        );
        lemma_named(p1 + p2 + p3 + p4, "email"@, text_of(self.email), c);
        lemma_named(p1 + p2 + p3 + p4 + p5, "phone"@, text_of(self.phone), c);
        lemma_named(p1 + p2 + p3 + p4 + p5 + p6, "photo"@, text_of(self.photo), c);
        lemma_named(p1 + p2 + p3 + p4 + p5 + p6 + p7, "address"@, text_of(self.address), c);
    }

    /// The fields of a change as it stands: each attribute that is present.
    pub open spec fn spec_fields(self) -> Seq<FieldView> {
        self.fields_with(
            match self.password {
                Some(p) => Some(p@),
                None => None,
            },
        )
    }

    /// The present attributes as fields, in the order of declaration.
    pub fn not_none_fields(self) -> (r: Vec<Field>)
        ensures
            crate::model::fields_view(r@) == self.spec_fields(),
    {
        let mut fields: Vec<Field> = Vec::new();
        assert(crate::model::fields_view(fields@) =~= Seq::empty());
        push_text(&mut fields, "name", self.name);
        match self.role {
            Some(role) => push_field(&mut fields, "role", Some(role.value())),
            None => push_field(&mut fields, "role", None),
        }
        push_text(&mut fields, "username", self.username);
        push_text(&mut fields, "password", self.password);
        push_text(&mut fields, "email", self.email);
        push_text(&mut fields, "phone", self.phone);
        push_text(&mut fields, "photo", self.photo);
        push_text(&mut fields, "address", self.address);
        assert(crate::model::fields_view(fields@) =~= self.spec_fields());
        fields
    }
}

/// A projection of a user: the columns that a lookup reads.
pub trait UserBy {
    /// The columns of the projection.
    spec fn spec_columns() -> Seq<Seq<char>>;

    /// The columns of the projection, in order.
    fn columns() -> (r: Vec<&'static str>)
        ensures
            names(r@) == Self::spec_columns(),
    ;
}

impl UserBy for User {
    open spec fn spec_columns() -> Seq<Seq<char>> {
        seq![
            "id"@,
            "name"@,
            "role"@,
            "username"@,
            "password"@,
            "email"@,
            "phone"@,
            "photo"@,
            "address"@,
            "updated_at"@,
            "created_at"@,
        ]
    }

    fn columns() -> (r: Vec<&'static str>) {
        let r = vec![
            "id",
            "name",
            "role",
            "username",
            "password",
            "email",
            "phone",
            "photo",
            "address",
            "updated_at",
            "created_at",
        ];
        assert(names(r@) =~= Self::spec_columns());
        r
    }
}

impl UserBy for UserForLogin {
    open spec fn spec_columns() -> Seq<Seq<char>> {
        seq!["username"@, "password"@]
    }

    fn columns() -> (r: Vec<&'static str>) {
        let r = vec!["username", "password"];
        assert(names(r@) =~= Self::spec_columns());
        r
    }
}

impl User {
    /// Reads the answer to the lookup of the user `id`: the row, or
    /// that there is none in `Users`.
    pub fn found<E>(id: i64, row: Option<E>) -> (r: Result<E, Error>)
        ensures
            r == found_spec("Users", id, row),
    {
        crate::model::found("Users", id, row)
    }

    /// Reads the answer to a change of the user `id`: how many rows of
    /// `Users` it touched.
    pub fn changed(id: i64, rows_affected: u64) -> (r: Result<(), Error>)
        ensures
            r == changed_spec("Users", id, rows_affected),
    {
        crate::model::changed("Users", id, rows_affected)
    }

    /// The lookup of the user `id`, read as the projection `E`.
    pub fn get<E: UserBy>(id: i64) -> (r: Statement)
        ensures
            r@ == select_spec(users(), E::spec_columns(), id_is(id)),
    {
        crate::model::get("Users", E::columns(), id)
    }

    /// The lookup of the users whose username is `username`, read as the
    /// projection `E`.
    pub fn get_by_username<E: UserBy>(username: String) -> (r: Statement)
        ensures
            r@ == select_spec(
                users(),
                E::spec_columns(),
                seq![FieldView { column: "username"@, value: SqlValueView::Text(username@) }],
            ),
    {
        crate::model::list_where("Users", E::columns(), "username", SqlValue::Text(username))
    }

    /// The insert of a registration whose password has been hashed to
    /// `hashed`: the stored password is the hash, every other attribute
    /// is as provided.
    pub fn create_hashed(user: UserForCreate, hashed: String) -> (r: Result<Statement, Error>)
        ensures
            r matches Ok(s) && s@ == insert_spec(users(), user.fields_with(hashed@)),
    {
        let stored = UserForCreate {
            name: user.name,
            role: user.role,
            username: user.username,
            password: hashed,
            email: user.email,
            phone: user.phone,
            photo: user.photo,
            address: user.address,
        };
        crate::model::create("Users", stored.not_none_fields())
    }

    /// The insert of a registration. The password is hashed first, and
    /// only the hash is stored; if hashing fails, so does this, with `Hash`.
    pub fn create(user: UserForCreate) -> (r: Result<Statement, Error>)
        ensures
            match r {
                Ok(s) => exists|hashed: Seq<char>|
                    argon2_accepts(hashed, user.password@) && s@ == insert_spec(
                        users(),
                        #[trigger] user.fields_with(hashed),
                    ),
                Err(e) => e is Hash,
            },
    {
        match hash(user.password.as_str()) {
            Ok(hashed) => User::create_hashed(user, hashed),
            Err(e) => Err(Error::Hash(e.message())),
        }
    }

    /// The change `user` of the user `id`, in which a present password
    /// has been hashed to `hashed`.
    pub fn update_hashed(id: i64, user: UserForUpdate, hashed: Option<String>) -> (r: Statement)
        requires
            hashed is Some <==> user.password is Some,
        ensures
            r@ == update_spec(
                users(),
                user.fields_with(
                    match hashed {
                        Some(h) => Some(h@),
                        None => None,
                    },
                ),
                id_is(id),
            ),
    {
        let stored = UserForUpdate {
            name: user.name,
            role: user.role,
            username: user.username,
            password: hashed,
            email: user.email,
            phone: user.phone,
            photo: user.photo,
            address: user.address,
        };
        crate::model::update("Users", id, stored.not_none_fields())
    }

    /// The change `user` of the user `id`. A present password is hashed
    /// first and only the hash is stored; an absent one is left alone,
    /// as is every other absent attribute.
    pub fn update(id: i64, user: UserForUpdate) -> (r: Result<Statement, Error>)
        ensures
            match r {
                Ok(s) => if let Some(password) = user.password {
                    exists|hashed: Seq<char>|
                        argon2_accepts(hashed, password@) && s@ == update_spec(
                            users(),
                            #[trigger] user.fields_with(Some(hashed)),
                            id_is(id),
                        )
                } else {
                    s@ == update_spec(users(), user.spec_fields(), id_is(id))
                },
                Err(e) => user.password is Some && e is Hash,
            },
    {
        let hashed = match &user.password {
            Some(password) => match hash(password.as_str()) {
                Ok(h) => Some(h),
                Err(e) => {
                    return Err(Error::Hash(e.message()));
                },
            },
            None => None,
        };
        let ghost stored = hashed;
        let s = User::update_hashed(id, user, hashed);
        proof {
            if let Some(h) = stored {
                assert(s@ == update_spec(users(), user.fields_with(Some(h@)), id_is(id)));
            }
        }
        Ok(s)
    }

    /// The listing of every user, read as the projection `E`.
    pub fn list<E: UserBy>() -> (r: Statement)
        ensures
            r@ == select_spec(users(), E::spec_columns(), Seq::empty()),
    {
        crate::model::list("Users", E::columns())
    }

    /// The count of the users.
    pub fn count() -> (r: Statement)
        ensures
            r@ == count_spec(users()),
    {
        crate::model::count("Users")
    }

    /// The removal of the user `id`.
    pub fn delete(id: i64) -> (r: Statement)
        ensures
            r@ == delete_spec(users(), id_is(id)),
    {
        crate::model::delete("Users", id)
    }
}

} // verus!
