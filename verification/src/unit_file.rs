//! Unit files: the property list that declares one service.
//!
//! A unit file is a dictionary. `Label` is required and is a string; the
//! other keys are optional, and a key whose value has another type than
//! the one expected counts as absent.

use crate::descriptor::{
    distinct_names, LaunchAgent, LaunchAgentView, ServiceConfig, ServiceConfigView,
    ServiceMetadataView,
};
use crate::property_list::{
    array_value, boolean_value, dict_entries, dict_get, dict_insert, dict_items, dict_new,
    dictionary_value, entry_shapes, flat_entries, inserted, is_flat, lemma_key_index_is,
    lemma_lookup_inserted, lookup, plist_decoded, plist_shape, plist_xml, renderable,
    scalar_entries, shapes, string_value, value_as_array, value_as_boolean, value_as_dictionary,
    value_as_string, value_from_bytes, value_to_xml, Entries, PlistModel,
};
use vstd::prelude::*;

verus! {

/// The string stored under a key, where a string is stored there.
pub open spec fn string_at(entries: Entries, key: Seq<char>) -> Option<Seq<char>> {
    match lookup(entries, key) {
        Some(PlistModel::String(s)) => Some(s),
        _ => None,
    }
}

/// The boolean stored under a key, where a boolean is stored there.
pub open spec fn boolean_at(entries: Entries, key: Seq<char>) -> Option<bool> {
    match lookup(entries, key) {
        Some(PlistModel::Boolean(b)) => Some(b),
        _ => None,
    }
}

/// The strings among the items, in order.
pub open spec fn string_items(items: Seq<PlistModel>) -> Seq<Seq<char>>
    decreases items.len(),
{
    if items.len() == 0 {
        Seq::empty()
    } else {
        match items.last() {
            PlistModel::String(s) => string_items(items.drop_last()).push(s),
            _ => string_items(items.drop_last()),
        }
    }
}

/// The strings of the array stored under a key, where an array is stored
/// there.
pub open spec fn strings_at(entries: Entries, key: Seq<char>) -> Option<Seq<Seq<char>>> {
    match lookup(entries, key) {
        Some(PlistModel::Array(items)) => Some(string_items(items)),
        _ => None,
    }
}

/// The entries whose value is a string, in order.
pub open spec fn string_entries(entries: Entries) -> Seq<(Seq<char>, Seq<char>)>
    decreases entries.len(),
{
    if entries.len() == 0 {
        Seq::empty()
    } else {
        match entries.last().1 {
            PlistModel::String(s) => string_entries(entries.drop_last()).push(
                (entries.last().0, s),
            ),
            _ => string_entries(entries.drop_last()),
        }
    }
}

/// The string entries of the dictionary stored under a key, where a
/// dictionary is stored there.
pub open spec fn pairs_at(entries: Entries, key: Seq<char>) -> Option<
    Seq<(Seq<char>, Seq<char>)>,
> {
    match lookup(entries, key) {
        Some(PlistModel::Dictionary(inner)) => Some(string_entries(inner)),
        _ => None,
    }
}

/// What the entries of a unit file declare. The label is taken as given.
pub open spec fn declared_by(entries: Entries, label: Seq<char>) -> ServiceConfigView {
    ServiceConfigView {
        label,
        program: string_at(entries, "Program"@),
        program_arguments: strings_at(entries, "ProgramArguments"@),
        run_at_load: boolean_at(entries, "RunAtLoad"@),
        keep_alive: boolean_at(entries, "KeepAlive"@),
        working_directory: string_at(entries, "WorkingDirectory"@),
        standard_out_path: string_at(entries, "StandardOutPath"@),
        standard_error_path: string_at(entries, "StandardErrorPath"@),
        environment_variables: pairs_at(entries, "EnvironmentVariables"@),
    }
}

/// The descriptor that a document at `path` yields: none unless the
/// document is a dictionary with a string under `Label`. A descriptor
/// fresh from its file is not loaded and carries no overlay.
pub open spec fn descriptor_of(doc: PlistModel, path: Seq<char>) -> Option<LaunchAgentView> {
    match doc {
        PlistModel::Dictionary(entries) => match string_at(entries, "Label"@) {
            Some(label) => Some(
                LaunchAgentView {
                    declared: declared_by(entries, label),
                    file_path: path,
                    is_loaded: false,
                    pid: None,
                    overlay: ServiceMetadataView::blank(),
                },
            ),
            None => None,
        },
        _ => None,
    }
}

/// The descriptor that the bytes of a file at `path` yield: none where
/// the bytes are no property list.
pub open spec fn descriptor_of_bytes(content: Seq<u8>, path: Seq<char>) -> Option<
    LaunchAgentView,
> {
    match plist_decoded(content) {
        Some(doc) => descriptor_of(doc, path),
        None => None,
    }
}

fn read_string(d: &plist::Dictionary, key: &str) -> (r: Option<String>)
    ensures
        r.deep_view() == string_at(dict_entries(*d), key@),
{
    match dict_get(d, key) {
        Some(v) => value_as_string(v),
        None => None,
    }
}

fn read_boolean(d: &plist::Dictionary, key: &str) -> (r: Option<bool>)
    ensures
        r == boolean_at(dict_entries(*d), key@),
{
    match dict_get(d, key) {
        Some(v) => value_as_boolean(v),
        None => None,
    }
}

fn read_strings(d: &plist::Dictionary, key: &str) -> (r: Option<Vec<String>>)
    ensures
        r.deep_view() == strings_at(dict_entries(*d), key@),
{
    let v = match dict_get(d, key) {
        Some(v) => v,
        None => {
            return None;
        },
    };
    let items = match value_as_array(v) {
        Some(items) => items,
        None => {
            return None;
        },
    };
    let ghost all = shapes(items@);
    let mut out: Vec<String> = Vec::new();
    let mut i: usize = 0;
    while i < items.len()
        invariant
            i <= items.len(),
            all == shapes(items@),
            out.deep_view() == string_items(all.take(i as int)),
        decreases items.len() - i,
    {
        proof {
            assert(all.take(i + 1).drop_last() == all.take(i as int));
        }
        match value_as_string(&items[i]) {
            Some(s) => {
                out.push(s);
            },
            None => {},
        }
        i = i + 1;
    }
    proof {
        assert(all.take(items@.len() as int) == all);
    }
    Some(out)
}

fn read_string_pairs(d: &plist::Dictionary, key: &str) -> (r: Option<Vec<(String, String)>>)
    ensures
        r.deep_view() == pairs_at(dict_entries(*d), key@),
{
    let v = match dict_get(d, key) {
        Some(v) => v,
        None => {
            return None;
        },
    };
    let inner = match value_as_dictionary(v) {
        Some(inner) => inner,
        None => {
            return None;
        },
    };
    let items = dict_items(inner);
    let ghost all = dict_entries(*inner);
    let mut out: Vec<(String, String)> = Vec::new();
    let mut i: usize = 0;
    while i < items.len()
        invariant
            i <= items.len(),
            all == entry_shapes(items@),
            out.deep_view() == string_entries(all.take(i as int)),
        decreases items.len() - i,
    {
        proof {
            assert(all.take(i + 1).drop_last() == all.take(i as int));
        }
        match value_as_string(&items[i].1) {
            Some(s) => {
                let name = items[i].0.clone();
                out.push((name, s));
            },
            None => {},
        }
        i = i + 1;
    }
    proof {
        assert(all.take(items@.len() as int) == all);
    }
    Some(out)
}

/// Reads the descriptor of a service from the content of its unit file.
/// `path` is where the file is; it is recorded in the descriptor.
pub fn parse_plist_file(content: &[u8], path: &str) -> (r: Option<LaunchAgent>)
    ensures
        r.deep_view() == descriptor_of_bytes(content@, path@),
{
    let value = match value_from_bytes(content) {
        Some(value) => value,
        None => {
            return None;
        },
    };
    let dict = match value_as_dictionary(&value) {
        Some(dict) => dict,
        None => {
            return None;
        },
    };
    let label = match read_string(dict, "Label") {
        Some(label) => label,
        None => {
            return None;
        },
    };
    let agent = LaunchAgent {
        label,
        program: read_string(dict, "Program"),
        program_arguments: read_strings(dict, "ProgramArguments"),
        run_at_load: read_boolean(dict, "RunAtLoad"),
        keep_alive: read_boolean(dict, "KeepAlive"),
        working_directory: read_string(dict, "WorkingDirectory"),
        standard_out_path: read_string(dict, "StandardOutPath"),
        standard_error_path: read_string(dict, "StandardErrorPath"),
        environment_variables: read_string_pairs(dict, "EnvironmentVariables"),
        file_path: path.to_owned(),
        is_loaded: false,
        pid: None,
        display_name: None,
        description: None,
        icon: None,
        port: None,
        health_url: None,
        order: None,
        project_path: None,
        app_path: None,
    };
    Some(agent)
}

/// The entries after storing an optional value: nothing changes where
/// there is none.
pub open spec fn inserted_opt(entries: Entries, key: Seq<char>, value: Option<PlistModel>) -> Entries {
    match value {
        Some(v) => inserted(entries, key, v),
        None => entries,
    }
}

/// A string as a value, where there is one.
pub open spec fn string_model(s: Option<Seq<char>>) -> Option<PlistModel> {
    match s {
        Some(s) => Some(PlistModel::String(s)),
        None => None,
    }
}

/// A boolean as a value, where there is one.
pub open spec fn boolean_model(b: Option<bool>) -> Option<PlistModel> {
    match b {
        Some(b) => Some(PlistModel::Boolean(b)),
        None => None,
    }
}

/// A list of strings as an array value, where there is one.
pub open spec fn array_model(items: Option<Seq<Seq<char>>>) -> Option<PlistModel> {
    match items {
        Some(items) => Some(
            PlistModel::Array(items.map_values(|s: Seq<char>| PlistModel::String(s))),
        ),
        None => None,
    }
}

/// The entries of the dictionary that holds the given variables, stored
/// one after the other.
pub open spec fn variable_entries(pairs: Seq<(Seq<char>, Seq<char>)>) -> Entries
    decreases pairs.len(),
{
    if pairs.len() == 0 {
        Seq::empty()
    } else {
        inserted(
            variable_entries(pairs.drop_last()),
            pairs.last().0,
            PlistModel::String(pairs.last().1),
        )
    }
}

/// A list of variables as a dictionary value, where there is one.
pub open spec fn variables_model(pairs: Option<Seq<(Seq<char>, Seq<char>)>>) -> Option<
    PlistModel,
> {
    match pairs {
        Some(pairs) => Some(PlistModel::Dictionary(variable_entries(pairs))),
        None => None,
    }
}

/// The entries of the unit file written for a configuration: the label
/// always, each other field only where it is set.
pub open spec fn config_entries(c: ServiceConfigView) -> Entries {
    let e = inserted(Seq::empty(), "Label"@, PlistModel::String(c.label));
    let e = inserted_opt(e, "Program"@, string_model(c.program));
    let e = inserted_opt(e, "ProgramArguments"@, array_model(c.program_arguments));
    let e = inserted_opt(e, "RunAtLoad"@, boolean_model(c.run_at_load));
    let e = inserted_opt(e, "KeepAlive"@, boolean_model(c.keep_alive));
    let e = inserted_opt(e, "WorkingDirectory"@, string_model(c.working_directory));
    let e = inserted_opt(e, "StandardOutPath"@, string_model(c.standard_out_path));
    let e = inserted_opt(e, "StandardErrorPath"@, string_model(c.standard_error_path));
    inserted_opt(e, "EnvironmentVariables"@, variables_model(c.environment_variables))
}

/// The property list written for a configuration.
pub open spec fn config_model(c: ServiceConfigView) -> PlistModel {
    PlistModel::Dictionary(config_entries(c))
}

/// The content of the unit file written for a configuration, or the
/// reason why there is none.
pub open spec fn unit_file_content(c: ServiceConfigView) -> Result<Seq<u8>, Seq<char>> {
    plist_xml(config_model(c))
}

fn put_string(d: &mut plist::Dictionary, key: &str, value: &Option<String>)
    requires
        flat_entries(dict_entries(*old(d))),
    ensures
        dict_entries(*final(d)) == inserted_opt(
            dict_entries(*old(d)),
            key@,
            string_model(value.deep_view()),
        ),
        flat_entries(dict_entries(*final(d))),
{
    match value {
        Some(s) => {
            dict_insert(d, key.to_owned(), string_value(s.clone()));
        },
        None => {},
    }
}

fn put_boolean(d: &mut plist::Dictionary, key: &str, value: Option<bool>)
    requires
        flat_entries(dict_entries(*old(d))),
    ensures
        dict_entries(*final(d)) == inserted_opt(dict_entries(*old(d)), key@, boolean_model(value)),
        flat_entries(dict_entries(*final(d))),
{
    match value {
        Some(b) => {
            dict_insert(d, key.to_owned(), boolean_value(b));
        },
        None => {},
    }
}

fn strings_value(items: &Vec<String>) -> (r: plist::Value)
    ensures
        Some(plist_shape(r)) == array_model(Some(items.deep_view())),
        is_flat(plist_shape(r)),
{
    let mut values: Vec<plist::Value> = Vec::new();
    let mut i: usize = 0;
    while i < items.len()
        invariant
            i <= items.len(),
            values@.len() == i,
            forall|j: int| 0 <= j < i ==> plist_shape(#[trigger] values@[j]) == PlistModel::String(items@[j]@),
        decreases items.len() - i,
    {
        values.push(string_value(items[i].clone()));
        i = i + 1;
    }
    proof {
        assert(shapes(values@) =~= items.deep_view().map_values(
            |s: Seq<char>| PlistModel::String(s),
        ));
    }
    array_value(values)
}

fn variables_value(pairs: &Vec<(String, String)>) -> (r: plist::Value)
    ensures
        Some(plist_shape(r)) == variables_model(Some(pairs.deep_view())),
        is_flat(plist_shape(r)),
{
    let mut d = dict_new();
    let ghost all = pairs.deep_view();
    let mut i: usize = 0;
    while i < pairs.len()
        invariant
            i <= pairs.len(),
            all == pairs.deep_view(),
            dict_entries(d) == variable_entries(all.take(i as int)),
            scalar_entries(dict_entries(d)),
        decreases pairs.len() - i,
    {
        proof {
            assert(all.take(i + 1).drop_last() == all.take(i as int));
        }
        dict_insert(&mut d, pairs[i].0.clone(), string_value(pairs[i].1.clone()));
        i = i + 1;
    }
    proof {
        assert(all.take(pairs@.len() as int) == all);
    }
    dictionary_value(d)
}

/// Builds the property list of a unit file from a configuration.
fn config_plist(config: &ServiceConfig) -> (r: plist::Value)
    ensures
        plist_shape(r) == config_model(config@),
        renderable(plist_shape(r)),
{
    let mut d = dict_new();
    dict_insert(&mut d, "Label".to_owned(), string_value(config.label.clone()));
    put_string(&mut d, "Program", &config.program);
    match &config.program_arguments {
        Some(args) => {
            let value = strings_value(args);
            dict_insert(&mut d, "ProgramArguments".to_owned(), value);
        },
        None => {},
    }
    put_boolean(&mut d, "RunAtLoad", config.run_at_load);
    put_boolean(&mut d, "KeepAlive", config.keep_alive);
    put_string(&mut d, "WorkingDirectory", &config.working_directory);
    put_string(&mut d, "StandardOutPath", &config.standard_out_path);
    put_string(&mut d, "StandardErrorPath", &config.standard_error_path);
    match &config.environment_variables {
        Some(pairs) => {
            let value = variables_value(pairs);
            dict_insert(&mut d, "EnvironmentVariables".to_owned(), value);
        },
        None => {},
    }
    dictionary_value(d)
}

/// What rendering yields, in mathematical form.
pub open spec fn rendering_view(r: Result<Vec<u8>, String>) -> Result<Seq<u8>, Seq<char>> {
    match r {
        Ok(bytes) => Ok(bytes@),
        Err(reason) => Err(reason@),
    }
}

/// Renders the unit file of a configuration as an XML property list.
/// Where the `plist` crate writes no document, the text of its error is
/// returned.
pub fn render_unit_file(config: &ServiceConfig) -> (r: Result<Vec<u8>, String>)
    ensures
        rendering_view(r) == unit_file_content(config@),
{
    let value = config_plist(config);
    value_to_xml(&value)
}

/// An array of strings reads back as those strings.
pub proof fn lemma_string_items_of_strings(items: Seq<Seq<char>>)
    ensures
        string_items(items.map_values(|s: Seq<char>| PlistModel::String(s))) == items,
    decreases items.len(),
{
    let m = items.map_values(|s: Seq<char>| PlistModel::String(s));
    if items.len() > 0 {
        lemma_string_items_of_strings(items.drop_last());
        assert(m.drop_last() =~= items.drop_last().map_values(
            |s: Seq<char>| PlistModel::String(s),
        ));
        assert(m.last() == PlistModel::String(items.last()));
        assert(items.drop_last().push(items.last()) =~= items);
    } else {
        assert(string_items(m) =~= items);
    }
}

/// Variables that are each named once are stored in their order, and
/// read back as they were.
pub proof fn lemma_variable_entries(pairs: Seq<(Seq<char>, Seq<char>)>)
    requires
        distinct_names(pairs),
    ensures
        variable_entries(pairs) == pairs.map_values(
            |p: (Seq<char>, Seq<char>)| (p.0, PlistModel::String(p.1)),
        ),
        string_entries(variable_entries(pairs)) == pairs,
    decreases pairs.len(),
{
    let stored = pairs.map_values(|p: (Seq<char>, Seq<char>)| (p.0, PlistModel::String(p.1)));
    if pairs.len() > 0 {
        let prev = pairs.drop_last();
        assert forall|i: int, j: int| 0 <= i < j < prev.len() implies (#[trigger] prev[i]).0 != (
        #[trigger] prev[j]).0 by {
            assert(prev[i] == pairs[i]);
            assert(prev[j] == pairs[j]);
        }
        lemma_variable_entries(prev);
        let before = variable_entries(prev);
        let name = pairs.last().0;
        assert forall|j: int| 0 <= j < before.len() implies (#[trigger] before[j]).0 != name by {
            assert(prev[j] == pairs[j]);
            assert(pairs[j].0 != pairs[pairs.len() - 1].0);
        }
        lemma_key_index_is(before, name, before.len() as int);
        let full = variable_entries(pairs);
        assert(full =~= stored);
        assert(full.drop_last() =~= before);
        assert(full.last() == (name, PlistModel::String(pairs.last().1)));
        assert(prev.push(pairs.last()) =~= pairs);
    } else {
        assert(variable_entries(pairs) =~= stored);
        assert(string_entries(variable_entries(pairs)) =~= pairs);
    }
}

proof fn lemma_inserted_opt(entries: Entries, key: Seq<char>, value: Option<PlistModel>)
    ensures
        lookup(inserted_opt(entries, key, value), key) == (if value is Some {
            value
        } else {
            lookup(entries, key)
        }),
        forall|other: Seq<char>|
            other != key ==> #[trigger] lookup(inserted_opt(entries, key, value), other) == lookup(
                entries,
                other,
            ),
{
    match value {
        Some(v) => {
            lemma_lookup_inserted(entries, key, v, key);
            assert forall|other: Seq<char>| other != key implies #[trigger] lookup(
                inserted_opt(entries, key, value),
                other,
            ) == lookup(entries, other) by {
                lemma_lookup_inserted(entries, key, v, other);
            }
        },
        None => {},
    }
}

proof fn lemma_keys_differ()
    ensures
        "Label"@ != "Program"@,
        "Label"@ != "ProgramArguments"@,
        "Label"@ != "RunAtLoad"@,
        "Label"@ != "KeepAlive"@,
        "Label"@ != "WorkingDirectory"@,
        "Label"@ != "StandardOutPath"@,
        "Label"@ != "StandardErrorPath"@,
        "Label"@ != "EnvironmentVariables"@,
        "Program"@ != "ProgramArguments"@,
        "Program"@ != "RunAtLoad"@,
        "Program"@ != "KeepAlive"@,
        "Program"@ != "WorkingDirectory"@,
        "Program"@ != "StandardOutPath"@,
        "Program"@ != "StandardErrorPath"@,
        "Program"@ != "EnvironmentVariables"@,
        "ProgramArguments"@ != "RunAtLoad"@,
        "ProgramArguments"@ != "KeepAlive"@,
        "ProgramArguments"@ != "WorkingDirectory"@,
        "ProgramArguments"@ != "StandardOutPath"@,
        "ProgramArguments"@ != "StandardErrorPath"@,
        "ProgramArguments"@ != "EnvironmentVariables"@,
        "RunAtLoad"@ != "KeepAlive"@,
        "RunAtLoad"@ != "WorkingDirectory"@,
        "RunAtLoad"@ != "StandardOutPath"@,
        "RunAtLoad"@ != "StandardErrorPath"@,
        "RunAtLoad"@ != "EnvironmentVariables"@,
        "KeepAlive"@ != "WorkingDirectory"@,
        "KeepAlive"@ != "StandardOutPath"@,
        "KeepAlive"@ != "StandardErrorPath"@,
        "KeepAlive"@ != "EnvironmentVariables"@,
        "WorkingDirectory"@ != "StandardOutPath"@,
        "WorkingDirectory"@ != "StandardErrorPath"@,
        "WorkingDirectory"@ != "EnvironmentVariables"@,
        "StandardOutPath"@ != "StandardErrorPath"@,
        "StandardOutPath"@ != "EnvironmentVariables"@,
        "StandardErrorPath"@ != "EnvironmentVariables"@,
{
    reveal_strlit("Label");
    reveal_strlit("Program");
    reveal_strlit("ProgramArguments");
    reveal_strlit("RunAtLoad");
    reveal_strlit("KeepAlive");
    reveal_strlit("WorkingDirectory");
    reveal_strlit("StandardOutPath");
    reveal_strlit("StandardErrorPath");
    reveal_strlit("EnvironmentVariables");
    assert("Label"@.len() == 5);
    assert("Program"@.len() == 7);
    assert("ProgramArguments"@.len() == 16);
    assert("RunAtLoad"@.len() == 9);
    assert("KeepAlive"@.len() == 9);
    assert("WorkingDirectory"@.len() == 16);
    assert("StandardOutPath"@.len() == 15);
    assert("StandardErrorPath"@.len() == 17);
    assert("EnvironmentVariables"@.len() == 20);
    assert("RunAtLoad"@[0] != "KeepAlive"@[0]);
    assert("ProgramArguments"@[0] != "WorkingDirectory"@[0]);
}

/// A unit file written for a configuration reads back as a descriptor
/// that declares exactly that configuration: each field that was set has
/// its value, and each field that was not is absent. The configuration
/// names each environment variable once.
pub proof fn lemma_written_unit_file_reads_back(c: ServiceConfigView, path: Seq<char>)
    requires
        c.wf(),
    ensures
        descriptor_of(config_model(c), path) == Some(
            LaunchAgentView {
                declared: c,
                file_path: path,
                is_loaded: false,
                pid: None,
                overlay: ServiceMetadataView::blank(),
            },
        ),
{
    lemma_keys_differ();
    let e0 = Seq::<(Seq<char>, PlistModel)>::empty();
    let e1 = inserted_opt(e0, "Label"@, Some(PlistModel::String(c.label)));
    let e2 = inserted_opt(e1, "Program"@, string_model(c.program));
    let e3 = inserted_opt(e2, "ProgramArguments"@, array_model(c.program_arguments));
    let e4 = inserted_opt(e3, "RunAtLoad"@, boolean_model(c.run_at_load));
    let e5 = inserted_opt(e4, "KeepAlive"@, boolean_model(c.keep_alive));
    let e6 = inserted_opt(e5, "WorkingDirectory"@, string_model(c.working_directory));
    let e7 = inserted_opt(e6, "StandardOutPath"@, string_model(c.standard_out_path));
    let e8 = inserted_opt(e7, "StandardErrorPath"@, string_model(c.standard_error_path));
    let e9 = inserted_opt(e8, "EnvironmentVariables"@, variables_model(c.environment_variables));
    assert(e9 == config_entries(c));
    assert(forall|k: Seq<char>| lookup(e0, k) is None);
    lemma_inserted_opt(e0, "Label"@, Some(PlistModel::String(c.label)));
    lemma_inserted_opt(e1, "Program"@, string_model(c.program));
    lemma_inserted_opt(e2, "ProgramArguments"@, array_model(c.program_arguments));
    lemma_inserted_opt(e3, "RunAtLoad"@, boolean_model(c.run_at_load));
    lemma_inserted_opt(e4, "KeepAlive"@, boolean_model(c.keep_alive));
    lemma_inserted_opt(e5, "WorkingDirectory"@, string_model(c.working_directory));
    lemma_inserted_opt(e6, "StandardOutPath"@, string_model(c.standard_out_path));
    lemma_inserted_opt(e7, "StandardErrorPath"@, string_model(c.standard_error_path));
    lemma_inserted_opt(e8, "EnvironmentVariables"@, variables_model(c.environment_variables));
    assert(lookup(e9, "Label"@) == Some(PlistModel::String(c.label)));
    assert(lookup(e9, "Program"@) == string_model(c.program));
    assert(lookup(e9, "ProgramArguments"@) == array_model(c.program_arguments));
    assert(lookup(e9, "RunAtLoad"@) == boolean_model(c.run_at_load));
    assert(lookup(e9, "KeepAlive"@) == boolean_model(c.keep_alive));
    assert(lookup(e9, "WorkingDirectory"@) == string_model(c.working_directory));
    assert(lookup(e9, "StandardOutPath"@) == string_model(c.standard_out_path));
    assert(lookup(e9, "StandardErrorPath"@) == string_model(c.standard_error_path));
    assert(lookup(e9, "EnvironmentVariables"@) == variables_model(c.environment_variables));
    match c.program_arguments {
        Some(args) => {
            lemma_string_items_of_strings(args);
        },
        None => {},
    }
    match c.environment_variables {
        Some(pairs) => {
            lemma_variable_entries(pairs);
        },
        None => {},
    }
    let d = declared_by(e9, c.label);
    assert(d.program == c.program);
    assert(d.program_arguments == c.program_arguments);
    assert(d.run_at_load == c.run_at_load);
    assert(d.keep_alive == c.keep_alive);
    assert(d.working_directory == c.working_directory);
    assert(d.standard_out_path == c.standard_out_path);
    assert(d.standard_error_path == c.standard_error_path);
    assert(d.environment_variables == c.environment_variables);
    assert(d == c);
}

} // verus!
