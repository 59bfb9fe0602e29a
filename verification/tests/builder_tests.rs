use bootstrap::builder::BuilderState;
use bootstrap::builder::ConstructionError;
use bootstrap::builder::InitError;
use bootstrap::builder::PluginDescriptor;
use bootstrap::builder::initialize_app;

#[test]
fn new_builder_finishes_empty() {
    let mut b = BuilderState::new();
    let instance = b.finish().expect("a fresh builder must construct");
    assert_eq!(instance.plugin_count(), 0);
    assert!(!instance.has_context());
    assert!(instance.context_bytes().is_none());
}

#[test]
fn registration_order_is_preserved() {
    let b = BuilderState::new();
    let b = b.register_plugin(PluginDescriptor::Opener);
    let mut b = b.register_plugin(PluginDescriptor::Opener);
    let instance = b.finish().expect("construction must succeed");
    assert_eq!(instance.plugin_count(), 2);
    assert_eq!(instance.plugin_at(0), PluginDescriptor::Opener);
    assert_eq!(instance.plugin_at(1), PluginDescriptor::Opener);
}

#[test]
fn attach_context_last_write_wins() {
    let b = BuilderState::new();
    let b = b.attach_context(vec![1u8, 2u8]);
    let mut b = b.attach_context(vec![9u8]);
    let instance = b.finish().expect("construction must succeed");
    assert!(instance.has_context());
    assert_eq!(instance.context_bytes().as_deref(), Some(&[9u8][..]));
}

#[test]
fn attach_context_keeps_plugins() {
    let b = BuilderState::new();
    let b = b.register_plugin(PluginDescriptor::Opener);
    let mut b = b.attach_context(vec![7u8]);
    let instance = b.finish().expect("construction must succeed");
    assert_eq!(instance.plugin_count(), 1);
    assert_eq!(instance.context_bytes().as_deref(), Some(&[7u8][..]));
}

#[test]
fn finish_twice_fails_deterministically() {
    let mut b = BuilderState::new();
    let first = b.finish();
    assert!(first.is_ok());
    let second = b.finish();
    assert_eq!(second.err(), Some(ConstructionError::AlreadyConsumed));
    let third = b.finish();
    assert_eq!(third.err(), Some(ConstructionError::AlreadyConsumed));
}

#[test]
fn construction_error_describes_itself() {
    assert_eq!(
        ConstructionError::AlreadyConsumed.describe(),
        "builder already consumed: an instance was already constructed from it"
    );
}

#[test]
fn init_error_describes_itself() {
    assert_eq!(InitError::SetupFailed.describe(), "one-time application setup failed");
}

#[test]
fn plugin_name_is_opener() {
    assert_eq!(PluginDescriptor::Opener.name(), "opener");
}

#[test]
fn initialize_app_succeeds_and_leaves_instance_unchanged() {
    let b = BuilderState::new();
    let b = b.register_plugin(PluginDescriptor::Opener);
    let mut b = b.attach_context(vec![3u8, 4u8]);
    let mut instance = b.finish().expect("construction must succeed");
    let hook = initialize_app(&mut instance);
    assert!(hook.is_ok());
    assert_eq!(instance.plugin_count(), 1);
    assert_eq!(instance.plugin_at(0), PluginDescriptor::Opener);
    assert_eq!(instance.context_bytes().as_deref(), Some(&[3u8, 4u8][..]));
}
