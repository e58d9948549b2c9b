use dear_mirl_gui::gui::DearMirlGui;
use dear_mirl_gui::module_manager::ModuleRegistry;
use dear_mirl_gui::modules::widget::text::TextDisplay;
use dear_mirl_gui::paths::ModulePath;

#[test]
fn lib_main() {
    // The example scene without a window: register modules, put them in a window.
    let mut registry: ModuleRegistry<TextDisplay, Vec<u32>> = ModuleRegistry::new();
    let m1 = registry.register_module(ModulePath::<TextDisplay>::const_new(1).with_name("Text"), TextDisplay::new("Hello World"));
    let m2 = registry.register_module(ModulePath::<TextDisplay>::const_new(2).with_name("Info"), TextDisplay::new("there is text now ig"));
    assert_eq!(registry.get_idx_of_id(m1.id()), Some(0));
    assert_eq!(registry.get_idx_of_id(m2.id()), Some(1));
    let id = registry.get_available_id();
    let window: DearMirlGui<false, true> = DearMirlGui::new_simple("Example Window", (20, 10), &vec![m1.id(), m2.id()], 100, id);
    assert_eq!(window.modules, vec![1, 2]);
    assert_eq!(window.get_height(), 0);
}
