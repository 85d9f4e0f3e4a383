use cargo_ros2ws::cli::{Cargo, CargoAddMember, CargoAddPatch, CommonArgs, SubCommand};
use cargo_ros2ws::cli::should_keep_waiting;
use cargo_ros2ws::error::Ros2wsError;

fn common(manifest_path: &str) -> CommonArgs {
    CommonArgs {
        manifest_path: manifest_path.to_string(),
        with_lock: false,
        wait_nsecs: 0,
    }
}

#[test]
fn test_execute_add_member() {
    let cargo = Cargo {
        common_args: common("/ws/Cargo.toml"),
        cmd: SubCommand::AddMember(CargoAddMember {
            member: "/test1".to_string(),
        }),
    };
    let out = cargo.execute("").unwrap();
    assert_eq!(out, "[workspace]\nmembers = [\"/test1\"]\n");
}

#[test]
fn test_execute_add_patch() {
    let cargo = Cargo {
        common_args: common("/ws/Cargo.toml"),
        cmd: SubCommand::AddPatch(CargoAddPatch {
            crate_name: "hoge".to_string(),
            path: "/hoge".to_string(),
        }),
    };
    let out = cargo.execute("").unwrap();
    assert_eq!(out, "[patch.crates-io]\nhoge = { path = \"/hoge\" }\n");
}

#[test]
fn test_execute_relative_manifest_path() {
    let cargo = Cargo {
        common_args: common("Cargo.toml"),
        cmd: SubCommand::AddMember(CargoAddMember {
            member: "/test1".to_string(),
        }),
    };
    assert!(matches!(
        cargo.execute(""),
        Err(Ros2wsError::NotAbsolutePath(p)) if p == "Cargo.toml"
    ));
}

#[test]
fn test_execute_relative_member_path() {
    let cargo = Cargo {
        common_args: common("/ws/Cargo.toml"),
        cmd: SubCommand::AddMember(CargoAddMember {
            member: "./test1".to_string(),
        }),
    };
    assert!(matches!(
        cargo.execute(""),
        Err(Ros2wsError::NotAbsolutePath(p)) if p == "./test1"
    ));
}

#[test]
fn test_should_keep_waiting() {
    // a deadline of zero waits forever
    assert!(should_keep_waiting(0, 100, 5));
    // still inside the deadline
    assert!(should_keep_waiting(5, 4, 999_999_999));
    assert!(should_keep_waiting(5, 5, 0));
    // past the deadline
    assert!(!should_keep_waiting(5, 5, 1));
    assert!(!should_keep_waiting(5, 6, 0));
}
