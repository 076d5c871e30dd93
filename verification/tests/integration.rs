use rust_lxc::lxc::{LxcCommander, LxcError};
use rust_lxc::mock::MockLxcCommander;

const TEST_CONTAINER_NAME: &str = "test-container";
const TEST_TEMPLATE: &str = "ubuntu";

#[test]
fn test_create_container() -> Result<(), LxcError> {
    let mut commander = MockLxcCommander::new();

    // create a container
    let result = commander.create(TEST_CONTAINER_NAME, TEST_TEMPLATE);
    assert!(result.is_ok(), "Failed to create container: {:?}", result);

    // the new container is in the list
    let list = commander.list()?;
    assert!(list.contains(TEST_CONTAINER_NAME), "Container {} not found in list", TEST_CONTAINER_NAME);

    // creating it again fails
    let result = commander.create(TEST_CONTAINER_NAME, TEST_TEMPLATE);
    assert!(result.is_err(), "Creating existing container should fail");

    Ok(())
}

#[test]
fn test_start_container() -> Result<(), LxcError> {
    let mut commander = MockLxcCommander::new();

    // create
    commander.create(TEST_CONTAINER_NAME, TEST_TEMPLATE)?;

    // start
    let result = commander.start(TEST_CONTAINER_NAME);
    assert!(result.is_ok(), "Failed to start container: {:?}", result);

    // list
    let list = commander.list()?;
    assert!(list.contains("Running"), "Container {} is not running", TEST_CONTAINER_NAME);

    // starting it again fails
    let result = commander.start(TEST_CONTAINER_NAME);
    assert!(result.is_err(), "Starting already running container should fail");

    Ok(())
}

#[test]
fn test_stop_container() -> Result<(), LxcError> {
    let mut commander = MockLxcCommander::new();

    // create a container and start it
    commander.create(TEST_CONTAINER_NAME, TEST_TEMPLATE)?;
    commander.start(TEST_CONTAINER_NAME)?;

    // stop it
    let result = commander.stop(TEST_CONTAINER_NAME);
    assert!(result.is_ok(), "Failed to stop container: {:?}", result);

    // check
    let list = commander.list()?;
    assert!(list.contains("Stopped"), "Container {} is still running", TEST_CONTAINER_NAME);

    // stopping it again fails
    let result = commander.stop(TEST_CONTAINER_NAME);
    assert!(result.is_err(), "Stopping already stopped container should fail");

    Ok(())
}

#[test]
fn test_delete_container() -> Result<(), LxcError> {
    let mut commander = MockLxcCommander::new();

    // create a container
    commander.create(TEST_CONTAINER_NAME, TEST_TEMPLATE)?;

    // delete it
    let result = commander.delete(TEST_CONTAINER_NAME);
    assert!(result.is_ok(), "Failed to delete container: {:?}", result);

    // check
    let list = commander.list()?;
    assert!(!list.contains(TEST_CONTAINER_NAME), "Container {} still exists", TEST_CONTAINER_NAME);

    // a running container cannot be deleted
    commander.create(TEST_CONTAINER_NAME, TEST_TEMPLATE)?;
    commander.start(TEST_CONTAINER_NAME)?;
    let result = commander.delete(TEST_CONTAINER_NAME);
    assert!(result.is_err(), "Deleting running container should fail");

    Ok(())
}

#[test]
fn test_ls_containers() -> Result<(), LxcError> {
    let mut commander = MockLxcCommander::new();

    // create two containers
    commander.create(TEST_CONTAINER_NAME, TEST_TEMPLATE)?;
    commander.create("another-container", TEST_TEMPLATE)?;

    // check
    let list = commander.list()?;
    assert!(list.contains(TEST_CONTAINER_NAME), "Container {} not found in list", TEST_CONTAINER_NAME);
    assert!(list.contains("another-container"), "Container another-container not found in list");

    // delete one and check
    commander.delete(TEST_CONTAINER_NAME)?;
    let list = commander.list()?;
    assert!(!list.contains(TEST_CONTAINER_NAME), "Deleted container {} still in list", TEST_CONTAINER_NAME);
    assert!(list.contains("another-container"), "Container another-container missing from list");

    Ok(())
}

#[test]
fn test_shutdown_container() -> Result<(), LxcError> {
    let mut commander = MockLxcCommander::new();

    // create and start
    commander.create(TEST_CONTAINER_NAME, TEST_TEMPLATE)?;
    commander.start(TEST_CONTAINER_NAME)?;

    // shutdown
    let result = commander.shutdown(TEST_CONTAINER_NAME);
    assert!(result.is_ok(), "Failed to shutdown container: {:?}", result);

    // check
    let list = commander.list()?;
    assert!(list.contains("Stopped"), "Container {} is still running", TEST_CONTAINER_NAME);

    Ok(())
}
