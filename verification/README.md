# rustora

The logic behind Rustora, a desktop front end for Fedora package, Flatpak,
kernel, driver and gaming setup tasks, written in Verus and proved against
its contracts.

## Layout

- `src/` — the verified library. Each dialog has a module with its state,
  a `Message` type, an `update` that returns the `Action` the caller must
  perform, and the parsers and texts of the commands it runs:
  - `install_dialog`, `rpm_dialog`, `package_dialog`: `dnf info` / `rpm -qi`
    / `rpm -qip` parsing, install and removal runs;
  - `flatpak_dialog`, `flatpak_update_dialog`, `flatpak_remove_dialog`:
    `flatpak info` parsing, install, update and removal runs;
  - `kernel_install_dialog`, `cachyos_kernel_dialog`, `stepper`: kernel
    installation steps and the shared step runner;
  - `hyprland_dialog`, `hyprland_dotfiles_dialog`, `gaming_meta_dialog`:
    multi-step installers;
  - `device_install_dialog`, `maintenance_dialog`: driver scripts and system
    maintenance tasks;
  - `proton_install_dialog`, `proton_changelog_dialog`: archive detection,
    install paths and release notes;
  - `settings`, `app`: tab visibility, tabs, theme;
  - `dialog_view`: the screens, buttons and progress lines that the package
    dialogs show, decided from their state;
  - `size`, `text`, `transcript`: byte sizes as text, string helpers with
    specifications, and command transcripts.
  Public proof functions in each module state the properties that span
  several calls (a completed run stays completed, a failed step stops the
  run, toggling a tab twice restores it, ...).
- `tests/` — tests run against the compiled library.
- `app/` — the unverified shell: processes, files, network, archives and the
  floating-point appearance settings. It performs the actions that the
  library decides and hands back what came of them.
