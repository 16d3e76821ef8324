//! The settings form: what its fields mean as a configuration, and what a
//! configuration puts into them.

use vstd::prelude::*;
use crate::decimal::{decimal, decimal_text, lemma_decimal_reads_back, parse_u16, parsed_u16};
use crate::wire::{ConfigView, TransmissionConfig};

verus! {

/// What the fields of a settings form hold, as plain values.
pub struct FormView {
    pub host: Seq<char>,
    pub port: Seq<char>,
    pub username: Seq<char>,
    pub password: Seq<char>,
    pub movies_dir: Seq<char>,
    pub shows_dir: Seq<char>,
}

/// What the fields of the settings form hold.
#[derive(Clone, Debug, PartialEq)]
pub struct SettingsForm {
    pub host: String,
    pub port: String,
    pub username: String,
    pub password: String,
    pub movies_dir: String,
    pub shows_dir: String,
}

impl View for SettingsForm {
    type V = FormView;

    open spec fn view(&self) -> FormView {
        FormView {
            host: self.host@,
            port: self.port@,
            username: self.username@,
            password: self.password@,
            movies_dir: self.movies_dir@,
            shows_dir: self.shows_dir@,
        }
    }
}

/// What a field that may stay empty means: nothing when it is empty.
pub open spec fn filled(field: Seq<char>) -> Option<Seq<char>> {
    if field.len() == 0 {
        None
    } else {
        Some(field)
    }
}

/// What a field shows for a value that may be missing.
pub open spec fn shown(value: Option<Seq<char>>) -> Seq<char> {
    match value {
        Some(v) => v,
        None => Seq::<char>::empty(),
    }
}

/// The port that a field names; the daemon's usual port where the field
/// names none.
pub open spec fn port_of(field: Seq<char>) -> u16 {
    match parsed_u16(field) {
        Some(p) => p,
        None => 9091,
    }
}

/// The configuration that a form stands for.
pub open spec fn config_of(form: FormView) -> ConfigView {
    ConfigView {
        host: form.host,
        port: port_of(form.port),
        username: filled(form.username),
        password: filled(form.password),
        movies_dir: filled(form.movies_dir),
        shows_dir: filled(form.shows_dir),
    }
}

/// The form that shows a configuration.
pub open spec fn form_of(config: ConfigView) -> FormView {
    FormView {
        host: config.host,
        port: decimal_text(config.port as nat),
        username: shown(config.username),
        password: shown(config.password),
        movies_dir: shown(config.movies_dir),
        shows_dir: shown(config.shows_dir),
    }
}

fn field_value(field: &String) -> (r: Option<String>)
    ensures
        crate::wire::opt_text(r) == filled(field@),
{
    if field.as_str().unicode_len() == 0 {
        None
    } else {
        Some(field.clone())
    }
}

fn value_field(value: &Option<String>) -> (r: String)
    ensures
        r@ == shown(crate::wire::opt_text(*value)),
{
    match value {
        Some(v) => v.clone(),
        None => String::new(),
    }
}

/// Reads the configuration that the form stands for.
pub fn read_config(form: &SettingsForm) -> (r: TransmissionConfig)
    ensures
        r@ == config_of(form@),
{
    let port = match parse_u16(form.port.as_str()) {
        Some(p) => p,
        None => 9091,
    };
    TransmissionConfig {
        host: form.host.clone(),
        port,
        username: field_value(&form.username),
        password: field_value(&form.password),
        movies_dir: field_value(&form.movies_dir),
        shows_dir: field_value(&form.shows_dir),
    }
}

/// Makes the form that shows a configuration.
pub fn set_config_values(config: &TransmissionConfig) -> (r: SettingsForm)
    ensures
        r@ == form_of(config@),
{
    SettingsForm {
        host: config.host.clone(),
        port: decimal(config.port as u64),
        username: value_field(&config.username),
        password: value_field(&config.password),
        movies_dir: value_field(&config.movies_dir),
        shows_dir: value_field(&config.shows_dir),
    }
}

/// A configuration that is shown in the form and read from it again is
/// the same as before, provided that none of its optional values is an
/// empty text: the form has no way to tell an empty value from a missing
/// one.
pub proof fn lemma_form_reads_back(config: ConfigView)
    requires
        config.username != Some(Seq::<char>::empty()),
        config.password != Some(Seq::<char>::empty()),
        config.movies_dir != Some(Seq::<char>::empty()),
        config.shows_dir != Some(Seq::<char>::empty()),
    ensures
        config_of(form_of(config)) == config,
{
    lemma_decimal_reads_back(config.port as nat);
    lemma_filled_shown(config.username);
    lemma_filled_shown(config.password);
    lemma_filled_shown(config.movies_dir);
    lemma_filled_shown(config.shows_dir);
}

/// A value that is missing or not empty is read back from the field that
/// shows it.
proof fn lemma_filled_shown(value: Option<Seq<char>>)
    requires
        value != Some(Seq::<char>::empty()),
    ensures
        filled(shown(value)) == value,
{
    match value {
        Some(v) => {
            if v.len() == 0 {
                assert(v =~= Seq::<char>::empty());
            }
        },
        None => {},
    }
}

} // verus!
