use vstd::prelude::*;
use crate::text::line_views;

verus! {

/// The user's settings: where the game is installed, and which registry to use.
pub struct Config {
    pub empty_epsilon_path: Option<String>,
    pub registry: Option<String>,
}

/// Mathematical model of `Config`.
pub struct ConfigView {
    pub empty_epsilon_path: Option<Seq<char>>,
    pub registry: Option<Seq<char>>,
}

/// The characters of an optional setting.
pub open spec fn opt_view(o: Option<String>) -> Option<Seq<char>> {
    match o {
        Some(s) => Some(s@),
        None => None,
    }
}

/// A setting flag of the `config` command: absent, given without a value, or
/// given with one.
pub open spec fn flag_view(f: Option<Option<String>>) -> Option<Option<Seq<char>>> {
    match f {
        Some(v) => Some(opt_view(v)),
        None => None,
    }
}

impl View for Config {
    type V = ConfigView;

    open spec fn view(&self) -> ConfigView {
        ConfigView {
            empty_epsilon_path: opt_view(self.empty_epsilon_path),
            registry: opt_view(self.registry),
        }
    }
}

/// The registry that a fresh configuration points at.
pub open spec fn default_registry() -> Seq<char> {
    "https://registry.esm.latehours.net/v1"@
}

/// The configuration written when none exists yet.
pub open spec fn default_config_view() -> ConfigView {
    ConfigView { empty_epsilon_path: None, registry: Some(default_registry()) }
}

/// The value of a setting after its flag was handled: a value given replaces it.
pub open spec fn setting_after(current: Option<Seq<char>>, flag: Option<Option<Seq<char>>>) -> Option<
    Seq<char>,
> {
    match flag {
        Some(Some(v)) => Some(v),
        _ => current,
    }
}

/// The line that shows a setting: `label = "value"`, or `label is not set`.
pub open spec fn setting_report(label: Seq<char>, current: Option<Seq<char>>) -> Seq<char> {
    match current {
        Some(v) => label + " = \""@ + v + "\""@,
        None => label + " is not set"@,
    }
}

/// What a flag prints: the current value when the flag is given without one.
pub open spec fn setting_output(
    label: Seq<char>,
    current: Option<Seq<char>>,
    flag: Option<Option<Seq<char>>>,
) -> Seq<Seq<char>> {
    match flag {
        Some(None) => seq![setting_report(label, current)],
        _ => Seq::empty(),
    }
}

/// The flag was given with a value.
pub open spec fn sets_value(flag: Option<Option<Seq<char>>>) -> bool {
    flag matches Some(Some(_))
}

/// The name under which the game path is shown.
pub open spec fn empty_epsilon_path_label() -> Seq<char> {
    "empty_epsilon_path"@
}

/// The name under which the registry is shown.
pub open spec fn registry_label() -> Seq<char> {
    "registry"@
}

/// What the `config` command does to a configuration.
pub struct ConfigOutcome {
    /// The configuration after the flags were applied.
    pub config: Config,
    /// Whether a flag set a value, so that the configuration must be saved.
    pub changed: bool,
    /// The lines to print, in order.
    pub messages: Vec<String>,
}

/// A fresh configuration: no game path, the built-in registry.
pub fn default_config() -> (r: Config)
    ensures
        r@ == default_config_view(),
{
    Config {
        empty_epsilon_path: None,
        registry: Some(String::from_str("https://registry.esm.latehours.net/v1")),
    }
}

fn copy_setting(o: &Option<String>) -> (r: Option<String>)
    ensures
        opt_view(r) == opt_view(*o),
{
    match o {
        Some(s) => Some(s.clone()),
        None => None,
    }
}

/// Formats the line that shows a setting.
pub fn setting_line(label: &str, current: &Option<String>) -> (r: String)
    ensures
        r@ == setting_report(label@, opt_view(*current)),
{
    let mut r = String::from_str(label);
    match current {
        Some(v) => {
            r.append(" = \"");
            r.append(v.as_str());
            r.append("\"");
        },
        None => {
            r.append(" is not set");
        },
    }
    r
}

/// Handles one setting flag: returns the new value of the setting, and the
/// line to print if the flag asks to show it.
pub fn apply_setting(label: &str, current: &Option<String>, flag: &Option<Option<String>>) -> (r: (
    Option<String>,
    Option<String>,
))
    ensures
        opt_view(r.0) == setting_after(opt_view(*current), flag_view(*flag)),
        match r.1 {
            Some(line) => setting_output(label@, opt_view(*current), flag_view(*flag)) == seq![
                line@,
            ],
            None => setting_output(label@, opt_view(*current), flag_view(*flag)) == Seq::<
                Seq<char>,
            >::empty(),
        },
{
    match flag {
        Some(Some(v)) => (Some(v.clone()), None),
        Some(None) => (copy_setting(current), Some(setting_line(label, current))),
        None => (copy_setting(current), None),
    }
}

/// Runs the `config` command's flags against `config`, the game path first.
/// A flag with a value sets the setting; one without shows it; an absent one
/// leaves it alone.
pub fn apply_config_command(
    config: &Config,
    empty_epsilon_path: &Option<Option<String>>,
    registry: &Option<Option<String>>,
) -> (r: ConfigOutcome)
    ensures
        r.config@ == (ConfigView {
            empty_epsilon_path: setting_after(
                config@.empty_epsilon_path,
                flag_view(*empty_epsilon_path),
            ),
            registry: setting_after(config@.registry, flag_view(*registry)),
        }),
        r.changed == (sets_value(flag_view(*empty_epsilon_path)) || sets_value(
            flag_view(*registry),
        )),
        line_views(r.messages@) == setting_output(
            empty_epsilon_path_label(),
            config@.empty_epsilon_path,
            flag_view(*empty_epsilon_path),
        ) + setting_output(registry_label(), config@.registry, flag_view(*registry)),
{
    let (ep, ep_line) = apply_setting("empty_epsilon_path", &config.empty_epsilon_path, empty_epsilon_path);
    let (reg, reg_line) = apply_setting("registry", &config.registry, registry);
    let mut messages: Vec<String> = Vec::new();
    let ghost ep_out = setting_output(
        empty_epsilon_path_label(),
        config@.empty_epsilon_path,
        flag_view(*empty_epsilon_path),
    );
    let ghost reg_out = setting_output(registry_label(), config@.registry, flag_view(*registry));
    match ep_line {
        Some(line) => messages.push(line),
        None => {},
    }
    assert(line_views(messages@) =~= ep_out);
    match reg_line {
        Some(line) => messages.push(line),
        None => {},
    }
    assert(line_views(messages@) =~= ep_out + reg_out);
    let changed = matches!(empty_epsilon_path, Some(Some(_))) || matches!(registry, Some(Some(_)));
    ConfigOutcome { config: Config { empty_epsilon_path: ep, registry: reg }, changed, messages }
}

/// Setting the registry on a fresh configuration marks it for saving with that
/// value, and asking for the registry afterwards prints exactly that value.
pub proof fn lemma_set_then_show_registry(url: Seq<char>)
    ensures
        setting_after(default_config_view().registry, Some(Some(url))) == Some(url),
        sets_value(Some(Some(url))),
        setting_output(
            registry_label(),
            setting_after(default_config_view().registry, Some(Some(url))),
            Some(None),
        ) == seq![registry_label() + " = \""@ + url + "\""@],
{
}

} // verus!
