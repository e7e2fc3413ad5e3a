//! What the record handlers answer once the database has spoken.

use vstd::prelude::*;
use vstd::string::*;

verus! {

/// The handlers that read or change records.
#[derive(Clone, Copy, Debug, PartialEq, Eq, Structural)]
pub enum Handler {
    GetUser,
    GetAllUsers,
    PostUser,
    GetTodos,
    PostTodo,
    PatchTodo,
    DeleteTodo,
    GetRecipes,
    PostRecipe,
    PatchRecipe,
    DeleteRecipe,
}

/// What a handler does to the records.
#[derive(Clone, Copy, Debug, PartialEq, Eq, Structural)]
pub enum Kind {
    Read,
    Create,
    Change,
}

/// What a handler reads of a failed database statement.
#[derive(Clone, Debug, PartialEq, Eq)]
pub enum StoreError {
    /// The statement found no row.
    RowNotFound,
    /// The database refused the statement, with its error code if it gave one.
    Database(Option<String>),
    /// Anything else.
    Other,
}

/// A status code and the text that goes with it.
#[derive(Clone, Copy, Debug, PartialEq, Eq)]
pub struct Reply {
    pub status: u16,
    pub message: &'static str,
}

/// A [`Reply`] as specifications see it.
pub struct ReplyView {
    pub status: u16,
    pub message: Seq<char>,
}

impl View for Reply {
    type V = ReplyView;

    open spec fn view(&self) -> ReplyView {
        ReplyView { status: self.status, message: self.message@ }
    }
}

/// The error code by which the database reports a violated uniqueness
/// constraint.
pub open spec fn unique_violation() -> Seq<char> {
    "23505"@
}

impl Handler {
    pub open spec fn spec_kind(self) -> Kind {
        match self {
            Handler::GetUser | Handler::GetAllUsers | Handler::GetTodos | Handler::GetRecipes => Kind::Read,
            Handler::PostUser | Handler::PostTodo | Handler::PostRecipe => Kind::Create,
            Handler::PatchTodo | Handler::DeleteTodo | Handler::PatchRecipe | Handler::DeleteRecipe => Kind::Change,
        }
    }

    /// What this handler does to the records.
    #[verifier::when_used_as_spec(spec_kind)]
    pub fn kind(self) -> (kind: Kind)
        ensures
            kind == self.spec_kind(),
    {
        match self {
            Handler::GetUser | Handler::GetAllUsers | Handler::GetTodos | Handler::GetRecipes => Kind::Read,
            Handler::PostUser | Handler::PostTodo | Handler::PostRecipe => Kind::Create,
            Handler::PatchTodo | Handler::DeleteTodo | Handler::PatchRecipe | Handler::DeleteRecipe => Kind::Change,
        }
    }

    /// The text sent when the handler finds nothing.
    pub open spec fn not_found_text(self) -> Seq<char> {
        match self {
            Handler::GetUser => "could not find user"@,
            Handler::GetAllUsers => "no users found"@,
            Handler::GetTodos => "could not find todos"@,
            _ => "could not find recipes"@,
        }
    }

    /// The text sent when a record to be created is already there.
    pub open spec fn conflict_text(self) -> Seq<char> {
        match self {
            Handler::PostUser => "user already exists"@,
            _ => "todo already exists"@,
        }
    }

    /// The text sent when the database refuses a change.
    pub open spec fn refused_text(self) -> Seq<char> {
        match self {
            Handler::PostUser => "could not create user"@,
            Handler::PostTodo | Handler::PostRecipe => "could not create todo"@,
            Handler::PatchTodo => "could not update todo"@,
            Handler::DeleteTodo => "could not delete todo"@,
            Handler::PatchRecipe => "could not update recipe"@,
            _ => "could not delete recipe"@,
        }
    }

    /// The text sent when the statement fails for any other reason.
    pub open spec fn failed_text(self) -> Seq<char> {
        match self {
            Handler::GetUser | Handler::GetTodos => "failed to get user"@,
            Handler::GetAllUsers => "failed to get users"@,
            Handler::GetRecipes => "failed to get recipes"@,
            Handler::PostUser => "failed to create user"@,
            Handler::PostTodo | Handler::PatchTodo | Handler::PostRecipe => "failed to create todo"@,
            Handler::DeleteTodo => "failed to delete todo"@,
            Handler::PatchRecipe => "failed to create recipe"@,
            Handler::DeleteRecipe => "failed to delete recipe"@,
        }
    }

    /// The text sent when a change went through.
    pub open spec fn done_text(self) -> Seq<char>
        recommends
            self.spec_kind() != Kind::Read,
    {
        match self {
            Handler::PostUser => "created user"@,
            Handler::PostTodo | Handler::PostRecipe => "created todo"@,
            Handler::PatchTodo => "updated todo"@,
            Handler::DeleteTodo => "deleted todo"@,
            Handler::PatchRecipe => "updated recipe"@,
            _ => "deleted recipe"@,
        }
    }

    /// The status sent when the statement went through: `201 Created` for
    /// a new record, `200 OK` otherwise.
    pub open spec fn spec_done_status(self) -> u16 {
        if self.spec_kind() == Kind::Create {
            201
        } else {
            200
        }
    }

    /// The status sent when the statement went through.
    #[verifier::when_used_as_spec(spec_done_status)]
    pub fn done_status(self) -> (status: u16)
        ensures
            status == self.spec_done_status(),
    {
        match self.kind() {
            Kind::Create => 201,
            _ => 200,
        }
    }

    /// What is answered when the statement failed.
    ///
    /// A handler that reads answers `404` when no row was found. One that
    /// creates answers `409` when the record is there already and `400`
    /// when the database refuses for another reason. One that changes
    /// answers `400` whenever the database refuses. Everything else is `500`.
    pub open spec fn failure(self, error: StoreError) -> ReplyView {
        match (self.spec_kind(), error) {
            (Kind::Read, StoreError::RowNotFound) => ReplyView {
                status: 404,
                message: self.not_found_text(),
            },
            (Kind::Create, StoreError::Database(Some(code))) => if code@ == unique_violation() {
                ReplyView { status: 409, message: self.conflict_text() }
            } else {
                ReplyView { status: 400, message: self.refused_text() }
            },
            (Kind::Change, StoreError::Database(_)) => ReplyView {
                status: 400,
                message: self.refused_text(),
            },
            _ => ReplyView { status: 500, message: self.failed_text() },
        }
    }

    /// The reply to a change that went through. A handler that reads has
    /// none: it answers with the records.
    pub fn done(self) -> (reply: Option<Reply>)
        ensures
            reply is Some <==> self.spec_kind() != Kind::Read,
            reply is Some ==> reply->0@ == (ReplyView {
                status: self.spec_done_status(),
                message: self.done_text(),
            }),
    {
        let message = match self {
            Handler::PostUser => "created user",
            Handler::PostTodo | Handler::PostRecipe => "created todo",
            Handler::PatchTodo => "updated todo",
            Handler::DeleteTodo => "deleted todo",
            Handler::PatchRecipe => "updated recipe",
            Handler::DeleteRecipe => "deleted recipe",
            _ => return None,
        };
        Some(Reply { status: self.done_status(), message })
    }

    /// The reply to a statement that failed. A handler that creates a
    /// record needs the error code of a refusal.
    pub fn failed(self, error: &StoreError) -> (reply: Reply)
        requires
            !(self.spec_kind() == Kind::Create && error == StoreError::Database(None)),
        ensures
            reply@ == self.failure(*error),
    {
        match (self.kind(), error) {
            (Kind::Read, StoreError::RowNotFound) => Reply {
                status: 404,
                message: match self {
                    Handler::GetUser => "could not find user",
                    Handler::GetAllUsers => "no users found",
                    Handler::GetTodos => "could not find todos",
                    _ => "could not find recipes",
                },
            },
            (Kind::Create, StoreError::Database(Some(code))) => {
                if *code == "23505".to_owned() {
                    Reply {
                        status: 409,
                        message: match self {
                            Handler::PostUser => "user already exists",
                            _ => "todo already exists",
                        },
                    }
                } else {
                    Reply { status: 400, message: self.refused() }
                }
            },
            (Kind::Change, StoreError::Database(_)) => Reply { status: 400, message: self.refused() },
            _ => Reply {
                status: 500,
                message: match self {
                    Handler::GetUser | Handler::GetTodos => "failed to get user",
                    Handler::GetAllUsers => "failed to get users",
                    Handler::GetRecipes => "failed to get recipes",
                    Handler::PostUser => "failed to create user",
                    Handler::PostTodo | Handler::PatchTodo | Handler::PostRecipe => "failed to create todo",
                    Handler::DeleteTodo => "failed to delete todo",
                    Handler::PatchRecipe => "failed to create recipe",
                    Handler::DeleteRecipe => "failed to delete recipe",
                },
            },
        }
    }

    fn refused(self) -> (message: &'static str)
        ensures
            message@ == self.refused_text(),
    {
        match self {
            Handler::PostUser => "could not create user",
            Handler::PostTodo | Handler::PostRecipe => "could not create todo",
            Handler::PatchTodo => "could not update todo",
            Handler::DeleteTodo => "could not delete todo",
            Handler::PatchRecipe => "could not update recipe",
            _ => "could not delete recipe",
        }
    }
}

} // verus!
