use lib::error::DepthaiError;

#[test]
fn test_new_api_concept() -> Result<(), DepthaiError> {
    // Node creation and linking need a device runtime; nothing to run here.
    Ok(())
}
