use batchwise::platform::authz::{authorize, granted, requirement, Access, Area, Role};

const W: Access = Access::Write;
const R: Access = Access::Read;
const N: Access = Access::NoAccess;

#[test]
fn grants_match_the_agreed_table() {
    let table: [(Area, [Access; 5]); 10] = [
        (Area::Account, [W, W, W, W, W]),
        (Area::Tenant, [W, R, R, R, R]),
        (Area::Dashboard, [R, R, R, R, R]),
        (Area::Production, [W, W, W, R, R]),
        (Area::Distribution, [W, W, W, W, R]),
        (Area::Sales, [W, W, R, W, R]),
        (Area::Costs, [W, W, R, N, R]),
        (Area::Duty, [W, W, N, N, R]),
        (Area::Audit, [R, R, N, N, R]),
        (Area::Members, [W, W, N, N, N]),
    ];
    for (area, row) in table {
        for (role, expected) in Role::ALL.into_iter().zip(row) {
            assert_eq!(granted(role, area), expected, "{role:?} in {area:?}");
        }
    }
}

#[test]
fn routes_map_to_an_area_and_access() {
    let cases = [
        ("GET", "/api/v1/batches/{id}", Some((Area::Production, R))),
        ("POST", "/api/v1/batches/{id}/transition", Some((Area::Production, W))),
        ("POST", "/api/v1/water-adjustments/calculate", Some((Area::Production, R))),
        ("PATCH", "/api/v1/duty-returns/{id}", Some((Area::Duty, W))),
        ("GET", "/api/v1/compliance-audit", Some((Area::Audit, R))),
        ("POST", "/api/v1/distribution-movements/{id}/void", Some((Area::Distribution, W))),
        ("PATCH", "/api/v1/members/{id}", Some((Area::Members, W))),
        ("GET", "/api/v1/not-a-route", None),
        ("GET", "/healthz", None),
    ];
    for (method, path, expected) in cases {
        assert_eq!(requirement(method, path), expected, "{method} {path}");
    }
}

#[test]
fn authorize_refuses_missing_access_and_unmapped_routes() {
    assert!(authorize(Role::Brewer, "POST", "/api/v1/recipes").is_ok());
    assert!(authorize(Role::Viewer, "POST", "/api/v1/recipes").is_err());
    assert!(authorize(Role::Brewer, "POST", "/api/v1/duty-returns/compile").is_err());
    assert!(authorize(Role::Owner, "GET", "/api/v1/not-a-route").is_err());
}

#[test]
fn roles_round_trip_through_their_names() {
    for role in Role::ALL {
        assert_eq!(role.as_str().parse::<Role>(), Ok(role));
    }
    assert!("admin".parse::<Role>().is_err());
}

#[test]
fn head_needs_only_read_access() {
    assert_eq!(requirement("HEAD", "/api/v1/recipes"), Some((Area::Production, R)));
    assert!(authorize(Role::Viewer, "HEAD", "/api/v1/recipes").is_ok());
}

#[test]
fn refused_routes_are_forbidden() {
    let e = authorize(Role::Viewer, "POST", "/api/v1/recipes").unwrap_err();
    assert_eq!(e.status(), 403);
    assert_eq!(e.code(), "forbidden");
}

#[test]
fn owner_and_manager_are_managers() {
    assert!(Role::Owner.is_manager());
    assert!(Role::Manager.is_manager());
    assert!(!Role::Brewer.is_manager());
    assert!(!Role::Sales.is_manager());
    assert!(!Role::Viewer.is_manager());
}

#[test]
fn owner_has_at_least_every_other_grant() {
    let areas = [
        Area::Account, Area::Tenant, Area::Dashboard, Area::Production, Area::Distribution,
        Area::Sales, Area::Costs, Area::Duty, Area::Audit, Area::Members,
    ];
    for area in areas {
        for role in Role::ALL {
            assert!(granted(Role::Owner, area) >= granted(role, area));
        }
    }
}
