use bearer_auth::reply::{Handler, Kind, Reply, StoreError};

const ALL: [Handler; 11] = [
    Handler::GetUser,
    Handler::GetAllUsers,
    Handler::PostUser,
    Handler::GetTodos,
    Handler::PostTodo,
    Handler::PatchTodo,
    Handler::DeleteTodo,
    Handler::GetRecipes,
    Handler::PostRecipe,
    Handler::PatchRecipe,
    Handler::DeleteRecipe,
];

fn refusal(code: &str) -> StoreError {
    StoreError::Database(Some(String::from(code)))
}

#[test]
fn readers_answer_404_when_nothing_is_found() {
    assert_eq!(Handler::GetUser.failed(&StoreError::RowNotFound), Reply { status: 404, message: "could not find user" });
    assert_eq!(Handler::GetAllUsers.failed(&StoreError::RowNotFound), Reply { status: 404, message: "no users found" });
    assert_eq!(Handler::GetTodos.failed(&StoreError::RowNotFound), Reply { status: 404, message: "could not find todos" });
    assert_eq!(Handler::GetRecipes.failed(&StoreError::RowNotFound), Reply { status: 404, message: "could not find recipes" });
}

#[test]
fn readers_answer_500_otherwise() {
    for error in [StoreError::Other, refusal("23505"), StoreError::Database(None)] {
        assert_eq!(Handler::GetUser.failed(&error), Reply { status: 500, message: "failed to get user" });
        assert_eq!(Handler::GetAllUsers.failed(&error), Reply { status: 500, message: "failed to get users" });
        assert_eq!(Handler::GetTodos.failed(&error), Reply { status: 500, message: "failed to get user" });
        assert_eq!(Handler::GetRecipes.failed(&error), Reply { status: 500, message: "failed to get recipes" });
    }
}

#[test]
fn creators_answer_409_on_a_unique_violation() {
    assert_eq!(Handler::PostUser.failed(&refusal("23505")), Reply { status: 409, message: "user already exists" });
    assert_eq!(Handler::PostTodo.failed(&refusal("23505")), Reply { status: 409, message: "todo already exists" });
    assert_eq!(Handler::PostRecipe.failed(&refusal("23505")), Reply { status: 409, message: "todo already exists" });
}

#[test]
fn creators_answer_400_on_another_refusal() {
    for code in ["23503", "2350", "235050", ""] {
        assert_eq!(Handler::PostUser.failed(&refusal(code)), Reply { status: 400, message: "could not create user" });
        assert_eq!(Handler::PostTodo.failed(&refusal(code)), Reply { status: 400, message: "could not create todo" });
        assert_eq!(Handler::PostRecipe.failed(&refusal(code)), Reply { status: 400, message: "could not create todo" });
    }
}

#[test]
fn creators_answer_500_otherwise() {
    for error in [StoreError::Other, StoreError::RowNotFound] {
        assert_eq!(Handler::PostUser.failed(&error), Reply { status: 500, message: "failed to create user" });
        assert_eq!(Handler::PostTodo.failed(&error), Reply { status: 500, message: "failed to create todo" });
        assert_eq!(Handler::PostRecipe.failed(&error), Reply { status: 500, message: "failed to create todo" });
    }
}

#[test]
fn changers_answer_400_on_any_refusal() {
    for error in [refusal("23505"), refusal("42601"), StoreError::Database(None)] {
        assert_eq!(Handler::PatchTodo.failed(&error), Reply { status: 400, message: "could not update todo" });
        assert_eq!(Handler::DeleteTodo.failed(&error), Reply { status: 400, message: "could not delete todo" });
        assert_eq!(Handler::PatchRecipe.failed(&error), Reply { status: 400, message: "could not update recipe" });
        assert_eq!(Handler::DeleteRecipe.failed(&error), Reply { status: 400, message: "could not delete recipe" });
    }
}

#[test]
fn changers_answer_500_otherwise() {
    for error in [StoreError::Other, StoreError::RowNotFound] {
        assert_eq!(Handler::PatchTodo.failed(&error), Reply { status: 500, message: "failed to create todo" });
        assert_eq!(Handler::DeleteTodo.failed(&error), Reply { status: 500, message: "failed to delete todo" });
        assert_eq!(Handler::PatchRecipe.failed(&error), Reply { status: 500, message: "failed to create recipe" });
        assert_eq!(Handler::DeleteRecipe.failed(&error), Reply { status: 500, message: "failed to delete recipe" });
    }
}

#[test]
fn changes_that_went_through_are_confirmed() {
    assert_eq!(Handler::PostUser.done(), Some(Reply { status: 201, message: "created user" }));
    assert_eq!(Handler::PostTodo.done(), Some(Reply { status: 201, message: "created todo" }));
    assert_eq!(Handler::PostRecipe.done(), Some(Reply { status: 201, message: "created todo" }));
    assert_eq!(Handler::PatchTodo.done(), Some(Reply { status: 200, message: "updated todo" }));
    assert_eq!(Handler::DeleteTodo.done(), Some(Reply { status: 200, message: "deleted todo" }));
    assert_eq!(Handler::PatchRecipe.done(), Some(Reply { status: 200, message: "updated recipe" }));
    assert_eq!(Handler::DeleteRecipe.done(), Some(Reply { status: 200, message: "deleted recipe" }));
    for reader in [Handler::GetUser, Handler::GetAllUsers, Handler::GetTodos, Handler::GetRecipes] {
        assert_eq!(reader.done(), None);
    }
}

#[test]
fn every_handler_has_its_kind_and_status() {
    let kinds = [
        Kind::Read,
        Kind::Read,
        Kind::Create,
        Kind::Read,
        Kind::Create,
        Kind::Change,
        Kind::Change,
        Kind::Read,
        Kind::Create,
        Kind::Change,
        Kind::Change,
    ];
    for (handler, kind) in ALL.iter().zip(kinds.iter()) {
        assert_eq!(handler.kind(), *kind);
        assert_eq!(handler.done_status(), if *kind == Kind::Create { 201 } else { 200 });
    }
}
