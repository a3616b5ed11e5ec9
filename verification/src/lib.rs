use vstd::prelude::*;

pub mod app;
pub mod cachyos_kernel_dialog;
pub mod device_install_dialog;
pub mod dialog_design;
pub mod dialog_view;
pub mod flatpak_dialog;
pub mod flatpak_remove_dialog;
pub mod flatpak_update_dialog;
pub mod gaming_meta_dialog;
pub mod hyprland_dialog;
pub mod hyprland_dotfiles_dialog;
pub mod install_dialog;
pub mod kernel_install_dialog;
pub mod maintenance_dialog;
pub mod package_dialog;
pub mod proton_changelog_dialog;
pub mod proton_install_dialog;
pub mod rpm_dialog;
pub mod settings;
pub mod size;
pub mod stepper;
pub mod text;
pub mod transcript;

verus! {

} // verus!
