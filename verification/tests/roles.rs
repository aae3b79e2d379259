use backend::auth::roles::Roles;
use backend::status::Status;
use std::cmp::Ordering;

const ALL: [Roles; 3] = [Roles::Guest, Roles::User, Roles::Admin];

#[test]
fn ranks_are_guest_user_admin() {
    assert_eq!(Roles::Guest.rank_of(), 0);
    assert_eq!(Roles::User.rank_of(), 1);
    assert_eq!(Roles::Admin.rank_of(), 2);
}

#[test]
fn guest_passes_every_check() {
    assert_eq!(Roles::Guest.authorize(Roles::Guest), Ok(()));
    assert_eq!(Roles::Guest.authorize(Roles::User), Ok(()));
    assert_eq!(Roles::Guest.authorize(Roles::Admin), Ok(()));
}

#[test]
fn user_passes_checks_for_user_and_admin() {
    assert_eq!(Roles::User.authorize(Roles::Guest), Err(Status::Unauthorized));
    assert_eq!(Roles::User.authorize(Roles::User), Ok(()));
    assert_eq!(Roles::User.authorize(Roles::Admin), Ok(()));
}

#[test]
fn admin_fails_a_check_for_a_lower_role() {
    assert_eq!(Roles::Admin.authorize(Roles::Guest), Err(Status::Unauthorized));
    assert_eq!(Roles::Admin.authorize(Roles::User), Err(Status::Unauthorized));
    assert_eq!(Roles::Admin.authorize(Roles::Admin), Ok(()));
}

#[test]
fn authorize_goes_by_rank_alone() {
    for actual in ALL {
        for required in ALL {
            let expected = if required.rank_of() < actual.rank_of() {
                Err(Status::Unauthorized)
            } else {
                Ok(())
            };
            assert_eq!(actual.authorize(required), expected);
            // asking again changes nothing
            assert_eq!(actual.authorize(required), expected);
        }
    }
}

#[test]
fn cmp_orders_by_rank_not_by_declaration() {
    assert_eq!(Roles::Guest.cmp(&Roles::User), Ordering::Less);
    assert_eq!(Roles::User.cmp(&Roles::Admin), Ordering::Less);
    assert_eq!(Roles::Guest.cmp(&Roles::Admin), Ordering::Less);
    assert_eq!(Roles::Admin.cmp(&Roles::Guest), Ordering::Greater);
    assert_eq!(Roles::Admin.cmp(&Roles::User), Ordering::Greater);
    assert_eq!(Roles::User.cmp(&Roles::User), Ordering::Equal);
}

#[test]
fn partial_cmp_and_operators_agree_with_cmp() {
    for left in ALL {
        for right in ALL {
            assert_eq!(left.partial_cmp(&right), Some(left.cmp(&right)));
            assert_eq!(left < right, left.rank_of() < right.rank_of());
            assert_eq!(left >= right, left.rank_of() >= right.rank_of());
            assert_eq!(left == right, left.rank_of() == right.rank_of());
        }
    }
}
