# tween_accounts

The decisions behind the accounts of a Matrix homeserver: who may register, change a
password, recover an account or claim a phone number, in which order things are checked,
stored and sent, and what clients are told.

## Layout

- `src/` is the library. It is verified with Verus and does no I/O.
- `app/` is the rest of the server around it: HTTP and GraphQL endpoints, the database,
  the HTTP client of Convert, and the configuration files.
- `tests/` runs the library.

## How a flow works

A flow such as `UserMutations::set_password` is a function of its input and of the
answers it has had so far. It returns `Next::Ask` with the next thing to look up or to
do, or `Next::Done` with the outcome. The caller does what was asked, records the answer
and calls the function again:

```rust
let mut known = SetPasswordAnswers::new();
loop {
    match mutations.set_password(admin, &settings, &input, &known) {
        Next::Ask(SetPasswordAsk::LookupUser(id)) => {
            known.user = Some(repository.lookup_user(id).await?);
        }
        // ...
        Next::Done(result) => return result,
    }
}
```

For every flow a specification function (`set_password_next`) says what is asked or
answered when. The public proof functions whose names begin with `law_` state what
follows for the flow as a whole: that a password is stored only for who may change it,
that a code counts only for its own session, that a retry repeats the same request, that
nothing is saved for a refusal.

Some laws speak of what is stored: of validation sessions and the owners of numbers
(`validations::Kept`) and of recovery tickets and passwords (`KeptRecovery` in
`users::recovery_runs`). There the specification says what the statements that `app/` runs
do to the tables, and the law what follows for the flow.

## What is trusted

The library calls `ulid`, `uuid`, `sha2`, `lettre`, `url`, `serde_json` and a few string
functions of the standard library. What is relied on of each is stated at the function
that makes the call, or at its `assume_specification`, and is not proved.
