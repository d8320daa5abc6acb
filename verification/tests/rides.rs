use usher::handlers::ride::{accept, create, delete};
use usher::handlers::{reply_to_ride_update, DbError};
use usher::handlers::user::User;
use usher::jwt_controller::AccessClaims;
use usher::response::ErrorKind;

const RIDE: &str = "7d444840-9dc0-11d1-b245-5ffdce74fad2";
const RIDE_ID: u128 = 0x7d444840_9dc0_11d1_b245_5ffdce74fad2;
const USER_ID: u128 = 0x936da01f_9abd_4d9d_80c7_02af85c822a8;

fn claims(driver: bool) -> AccessClaims {
    AccessClaims::from_user(User {
        id: USER_ID,
        email: "d@example.com".to_string(),
        name: "D".to_string(),
        last_name: "E".to_string(),
        driver,
        hashed_password: String::new(),
    })
}

fn bad_claims(driver: bool) -> AccessClaims {
    let mut c = claims(driver);
    c.sub = "not-a-uuid".to_string();
    c
}

fn accept_payload(ride_id: &str) -> accept::Payload {
    accept::Payload { ride_id: ride_id.to_string() }
}

#[test]
fn accept_by_a_driver_updates_the_ride() {
    let action = accept::handler(accept::Step::Request { claims: claims(true), payload: accept_payload(RIDE) });
    assert!(matches!(action, accept::Action::UpdateRide { driver_id: USER_ID, ride_id: RIDE_ID }));
}

#[test]
fn accept_by_a_customer_is_unauthorized() {
    let action = accept::handler(accept::Step::Request { claims: claims(false), payload: accept_payload(RIDE) });
    assert!(matches!(action, accept::Action::Reply(Err(e)) if e.error_kind == ErrorKind::Unauthorized));
    let action = accept::handler(accept::Step::Request { claims: bad_claims(false), payload: accept_payload("x") });
    assert!(matches!(action, accept::Action::Reply(Err(e)) if e.error_kind == ErrorKind::Unauthorized));
}

#[test]
fn accept_with_bad_ids() {
    let action = accept::handler(accept::Step::Request { claims: bad_claims(true), payload: accept_payload(RIDE) });
    assert!(matches!(action, accept::Action::Reply(Err(e)) if e.error_kind == ErrorKind::InvalidToken));
    let action = accept::handler(accept::Step::Request { claims: claims(true), payload: accept_payload("ride 1") });
    assert!(matches!(action, accept::Action::Reply(Err(e)) if e.error_kind == ErrorKind::InvalidRideId));
}

#[test]
fn accept_outcomes() {
    assert!(matches!(accept::handler(accept::Step::Updated(Ok(1))), accept::Action::Reply(Ok(200))));
    assert!(matches!(accept::handler(accept::Step::Updated(Ok(0))),
        accept::Action::Reply(Err(e)) if e.error_kind == ErrorKind::FailedRideOperation));
    assert!(matches!(accept::handler(accept::Step::Updated(Ok(2))),
        accept::Action::Reply(Err(e)) if e.error_kind == ErrorKind::FailedRideOperation));
    assert!(matches!(accept::handler(accept::Step::Updated(Err(DbError::Other))),
        accept::Action::Reply(Err(e)) if e.error_kind == ErrorKind::Server));
}

#[test]
fn ride_update_replies() {
    assert_eq!(reply_to_ride_update(Ok(1)), Ok(200));
    assert_eq!(reply_to_ride_update(Ok(0)).unwrap_err().error_kind, ErrorKind::FailedRideOperation);
    assert_eq!(reply_to_ride_update(Err(DbError::RowNotFound)).unwrap_err().error_kind, ErrorKind::Server);
}

#[test]
fn delete_by_either_side() {
    for driver in [true, false] {
        let action = delete::handler(delete::Step::Request {
            claims: claims(driver),
            payload: delete::Payload { ride_id: RIDE.to_string() },
        });
        assert!(matches!(action, delete::Action::UpdateRide { ride_id: RIDE_ID, user_id: USER_ID }));
    }
}

#[test]
fn delete_with_bad_ids_and_outcomes() {
    let action = delete::handler(delete::Step::Request {
        claims: bad_claims(false),
        payload: delete::Payload { ride_id: RIDE.to_string() },
    });
    assert!(matches!(action, delete::Action::Reply(Err(e)) if e.error_kind == ErrorKind::InvalidToken));
    let action = delete::handler(delete::Step::Request {
        claims: claims(false),
        payload: delete::Payload { ride_id: String::new() },
    });
    assert!(matches!(action, delete::Action::Reply(Err(e)) if e.error_kind == ErrorKind::InvalidRideId));
    assert!(matches!(delete::handler(delete::Step::Updated(Ok(1))), delete::Action::Reply(Ok(200))));
    assert!(matches!(delete::handler(delete::Step::Updated(Ok(0))),
        delete::Action::Reply(Err(e)) if e.error_kind == ErrorKind::FailedRideOperation));
    assert!(matches!(delete::handler(delete::Step::Updated(Err(DbError::OtherDatabase))),
        delete::Action::Reply(Err(e)) if e.error_kind == ErrorKind::Server));
}

#[test]
fn create_by_a_customer_inserts_a_ride() {
    let action = create::handler(create::Step::Request { claims: claims(false) });
    assert!(matches!(action, create::Action::InsertRide { user_id: USER_ID }));
}

#[test]
fn create_by_a_driver_is_unauthorized() {
    let action = create::handler(create::Step::Request { claims: claims(true) });
    assert!(matches!(action, create::Action::Reply(Err(e)) if e.error_kind == ErrorKind::Unauthorized));
    let action = create::handler(create::Step::Request { claims: bad_claims(false) });
    assert!(matches!(action, create::Action::Reply(Err(e)) if e.error_kind == ErrorKind::InvalidToken));
}

#[test]
fn create_replies_with_the_new_ride_id() {
    match create::handler(create::Step::Inserted(Ok(Some(RIDE_ID)))) {
        create::Action::Reply(Ok((code, body))) => {
            assert_eq!(code, 200);
            assert_eq!(body.payload.ride_id, RIDE);
        }
        _ => panic!("expected a reply"),
    }
    assert!(matches!(create::handler(create::Step::Inserted(Ok(None))),
        create::Action::Reply(Err(e)) if e.error_kind == ErrorKind::FailedRideOperation));
    assert!(matches!(create::handler(create::Step::Inserted(Err(DbError::Other))),
        create::Action::Reply(Err(e)) if e.error_kind == ErrorKind::Server));
}
