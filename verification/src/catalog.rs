//! Extensions: MCP servers, skills, hooks and the registry they come from.

use vstd::prelude::*;
use crate::api::ApiError;
use crate::api::ApiErrorView;
use crate::api::bad_request;
use crate::api::internal_error;
use crate::codec::json_document;
use crate::codec::parse_json;
use crate::json::Json;
use crate::json::JsonView;
use crate::json::array_view;
use crate::json::bool_of;
use crate::json::field;
use crate::json::field_trees;
use crate::json::member;
use crate::json::object_view;
use crate::json::text_of;
use crate::json::text_values;
use crate::json::trees;
use crate::json_ops::Fields;
use crate::json_ops::copy_fields;
use crate::json_ops::text_array;
use crate::order::in_order;
use crate::order::sort_texts;
use crate::paths::sibling;
use crate::paths::sibling_url;
use crate::pieces::cut_once;
use crate::pieces::split_once;
use crate::settings::content;
use crate::table::lookup;
use crate::table::pairs_of;
use crate::table::put;
use crate::table::removed_is_gone;
use crate::table::table_get;
use crate::table::table_put;
use crate::table::table_remove;
use crate::table::without;
use crate::text::begins;
use crate::text::blank;
use crate::text::chars_of;
use crate::text::contains;
use crate::text::ends;
use crate::text::ends_with;
use crate::text::has;
use crate::text::is_blank;
use crate::text::is_digit;
use crate::text::is_digit_char;
use crate::text::list_has;
use crate::text::lower;
use crate::text::same;
use crate::text::same_ignoring_case;
use crate::text::starts_with;
use crate::text::texts;
use crate::text::texts_empty;
use crate::text::texts_push;
use crate::text::trim;
use crate::text::trimmed;
use crate::views::Duplicate;
use crate::views::duplicate_all;
use crate::views::opt;
use crate::views::views;
use crate::views::views_empty;
use crate::views::views_push;

verus! {

broadcast use {texts_push, texts_empty, views_push, views_empty, array_view, object_view};

/// A value that an MCP server needs.
#[derive(Debug)]
pub struct CatalogParameter {
    pub key: String,
    pub label: String,
}

/// What a `CatalogParameter` holds.
#[verifier::ext_equal]
pub struct CatalogParameterView {
    pub key: Seq<char>,
    pub label: Seq<char>,
}

impl View for CatalogParameter {
    type V = CatalogParameterView;

    open spec fn view(&self) -> CatalogParameterView {
        CatalogParameterView {
            key: self.key@,
            label: self.label@,
        }
    }
}

impl Duplicate for CatalogParameter {
    fn duplicate(&self) -> (result: Self) {
        CatalogParameter {
            key: self.key.clone(),
            label: self.label.clone(),
        }
    }
}

/// An MCP server of the catalog.
#[derive(Debug)]
pub struct McpCatalogEntry {
    pub id: String,
    pub name: String,
    pub description: String,
    pub transport: Json,
    /// What it needs, as clients see it.
    pub parameters: Json,
    pub required_parameters: Vec<CatalogParameter>,
}

/// What a `McpCatalogEntry` holds.
#[verifier::ext_equal]
pub struct McpCatalogEntryView {
    pub id: Seq<char>,
    pub name: Seq<char>,
    pub description: Seq<char>,
    pub transport: JsonView,
    pub parameters: JsonView,
    pub required_parameters: Seq<CatalogParameterView>,
}

impl View for McpCatalogEntry {
    type V = McpCatalogEntryView;

    open spec fn view(&self) -> McpCatalogEntryView {
        McpCatalogEntryView {
            id: self.id@,
            name: self.name@,
            description: self.description@,
            transport: self.transport@,
            parameters: self.parameters@,
            required_parameters: views(self.required_parameters@),
        }
    }
}

impl Duplicate for McpCatalogEntry {
    fn duplicate(&self) -> (result: Self) {
        McpCatalogEntry {
            id: self.id.clone(),
            name: self.name.clone(),
            description: self.description.clone(),
            transport: self.transport.duplicate(),
            parameters: self.parameters.duplicate(),
            required_parameters: duplicate_all(&self.required_parameters),
        }
    }
}

/// A skill of the catalog.
#[derive(Debug)]
pub struct SkillCatalogEntry {
    pub id: String,
    pub name: String,
    pub description: String,
    pub repository: String,
}

/// What a `SkillCatalogEntry` holds.
#[verifier::ext_equal]
pub struct SkillCatalogEntryView {
    pub id: Seq<char>,
    pub name: Seq<char>,
    pub description: Seq<char>,
    pub repository: Seq<char>,
}

impl View for SkillCatalogEntry {
    type V = SkillCatalogEntryView;

    open spec fn view(&self) -> SkillCatalogEntryView {
        SkillCatalogEntryView {
            id: self.id@,
            name: self.name@,
            description: self.description@,
            repository: self.repository@,
        }
    }
}

impl Duplicate for SkillCatalogEntry {
    fn duplicate(&self) -> (result: Self) {
        SkillCatalogEntry {
            id: self.id.clone(),
            name: self.name.clone(),
            description: self.description.clone(),
            repository: self.repository.clone(),
        }
    }
}

/// A skill that is to be installed from a repository.
#[derive(Debug)]
pub struct SkillEntry {
    pub id: String,
    pub name: String,
    pub description: String,
    pub repository: String,
    pub git_ref: String,
    pub subdir: String,
}

/// What a `SkillEntry` holds.
#[verifier::ext_equal]
pub struct SkillEntryView {
    pub id: Seq<char>,
    pub name: Seq<char>,
    pub description: Seq<char>,
    pub repository: Seq<char>,
    pub git_ref: Seq<char>,
    pub subdir: Seq<char>,
}

impl View for SkillEntry {
    type V = SkillEntryView;

    open spec fn view(&self) -> SkillEntryView {
        SkillEntryView {
            id: self.id@,
            name: self.name@,
            description: self.description@,
            repository: self.repository@,
            git_ref: self.git_ref@,
            subdir: self.subdir@,
        }
    }
}

impl Duplicate for SkillEntry {
    fn duplicate(&self) -> (result: Self) {
        SkillEntry {
            id: self.id.clone(),
            name: self.name.clone(),
            description: self.description.clone(),
            repository: self.repository.clone(),
            git_ref: self.git_ref.clone(),
            subdir: self.subdir.clone(),
        }
    }
}

// ---------------------------------------------------------------------------
// MCP servers
// ---------------------------------------------------------------------------

/// The document that a file holds, where it holds one.
pub open spec fn stored_document(file: Option<Seq<u8>>) -> Option<JsonView> {
    match file {
        Some(bytes) => match json_document(bytes) {
            Ok(value) => Some(value),
            Err(_) => None,
        },
        None => None,
    }
}

/// Reads the document that a file holds, where it holds one.
pub fn read_document(file: Option<&Vec<u8>>) -> (result: Option<Json>)
    ensures
        match result {
            Some(value) => stored_document(content(file)) == Some(value@),
            None => stored_document(content(file)) is None,
        },
{
    match file {
        Some(bytes) => match parse_json(bytes.as_slice()) {
            Ok(value) => Some(value),
            Err(_) => None,
        },
        None => None,
    }
}

/// Whether a server is in use: unless it is switched off.
pub open spec fn server_enabled(server: JsonView) -> bool {
    bool_of(member(server, "enabled"@)) != Some(false)
}

/// The servers of a configuration.
pub open spec fn servers_of(document: Option<JsonView>) -> Seq<(Seq<char>, JsonView)> {
    match document {
        Some(value) => match member(value, "servers"@) {
            Some(JsonView::Object(fields)) => fields,
            _ => Seq::empty(),
        },
        None => Seq::empty(),
    }
}

/// Which servers are in use.
pub open spec fn server_states(servers: Seq<(Seq<char>, JsonView)>) -> Seq<(Seq<char>, bool)>
    decreases servers.len(),
{
    if servers.len() == 0 {
        Seq::empty()
    } else {
        put(
            server_states(servers.drop_last()),
            servers.last().0,
            server_enabled(servers.last().1),
        )
    }
}

fn is_enabled(server: &Json) -> (result: bool)
    ensures
        result == server_enabled(server@),
{
    match server.bool_member("enabled") {
        Some(enabled) => enabled,
        None => true,
    }
}

/// Tells which servers of a configuration are in use.
pub fn installed_mcp_enabled(file: Option<&Vec<u8>>) -> (result: Vec<(String, bool)>)
    ensures
        pairs_of(result@) == server_states(servers_of(stored_document(content(file)))),
{
    match read_document(file) {
        Some(value) => server_table(&value),
        None => {
            let none: Vec<(String, bool)> = Vec::new();
            assert(pairs_of(none@) =~= Seq::empty());
            none
        },
    }
}

/// Tells which servers of a parsed configuration are in use.
pub fn server_table(document: &Json) -> (result: Vec<(String, bool)>)
    ensures
        pairs_of(result@) == server_states(servers_of(Some(document@))),
{
    let mut states: Vec<(String, bool)> = Vec::new();
    assert(pairs_of(states@) =~= Seq::empty());
    match document.get("servers") {
        Some(Json::Object(servers)) => {
            let ghost all = field_trees(servers@);
            let mut i: usize = 0;
            assert(all.take(0) =~= Seq::empty());
            while i < servers.len()
                invariant
                    i <= servers@.len(),
                    all == field_trees(servers@),
                    pairs_of(states@) == server_states(all.take(i as int)),
                decreases servers@.len() - i,
            {
                let ghost part = all.take(i + 1);
                assert(part.drop_last() =~= all.take(i as int));
                assert(part.last() == (servers@[i as int].0@, servers@[i as int].1@));
                table_put(&mut states, servers[i].0.clone(), is_enabled(&servers[i].1));
                i = i + 1;
            }
            assert(all.take(i as int) =~= all);
        },
        _ => {},
    }
    states
}

/// The way in which a server is reached, or the empty text.
pub open spec fn transport_of(document: Option<JsonView>, name: Seq<char>) -> Seq<char> {
    match document {
        Some(value) => match member(value, "servers"@) {
            Some(servers) => match member(servers, name) {
                Some(server) => match text_of(member(server, "transport"@)) {
                    Some(text) => text,
                    None => ""@,
                },
                None => ""@,
            },
            None => ""@,
        },
        None => ""@,
    }
}

/// Returns the way in which a server is reached, or the empty text.
pub fn mcp_transport(file: Option<&Vec<u8>>, name: &str) -> (result: String)
    ensures
        result@ == transport_of(stored_document(content(file)), name@),
{
    match read_document(file) {
        Some(value) => match value.get("servers") {
            Some(servers) => match servers.get(name) {
                Some(server) => match server.text_member("transport") {
                    Some(text) => text,
                    None => "".to_owned(),
                },
                None => "".to_owned(),
            },
            None => "".to_owned(),
        },
        None => "".to_owned(),
    }
}

/// The names of the servers in use.
pub open spec fn enabled_names(servers: Seq<(Seq<char>, JsonView)>) -> Seq<Seq<char>>
    decreases servers.len(),
{
    if servers.len() == 0 {
        Seq::empty()
    } else {
        let before = enabled_names(servers.drop_last());
        if server_enabled(servers.last().1) {
            before.push(servers.last().0)
        } else {
            before
        }
    }
}

/// Returns the names of the servers in use, in order.
pub fn installed_mcp_names(file: Option<&Vec<u8>>) -> (result: Vec<String>)
    ensures
        texts(result@) == in_order(enabled_names(servers_of(stored_document(content(file))))),
{
    match read_document(file) {
        Some(value) => server_names(&value),
        None => sort_texts(Vec::new()),
    }
}

/// Returns the names of the servers of a parsed configuration that are in use, in order.
pub fn server_names(document: &Json) -> (result: Vec<String>)
    ensures
        texts(result@) == in_order(enabled_names(servers_of(Some(document@)))),
{
    let mut names: Vec<String> = Vec::new();
    match document.get("servers") {
        Some(Json::Object(servers)) => {
            let ghost all = field_trees(servers@);
            let mut i: usize = 0;
            while i < servers.len()
                invariant
                    i <= servers@.len(),
                    all == field_trees(servers@),
                    texts(names@) == enabled_names(all.take(i as int)),
                decreases servers@.len() - i,
            {
                let ghost part = all.take(i + 1);
                assert(part.drop_last() =~= all.take(i as int));
                assert(part.last() == (servers@[i as int].0@, servers@[i as int].1@));
                if is_enabled(&servers[i].1) {
                    names.push(servers[i].0.clone());
                }
                i = i + 1;
            }
            assert(all.take(i as int) =~= all);
        },
        _ => {},
    }
    sort_texts(names)
}

/// A configuration without a server.
pub open spec fn without_server(document: JsonView, id: Seq<char>) -> JsonView {
    match document {
        JsonView::Object(fields) => JsonView::Object(
            Seq::new(
                fields.len(),
                |i: int|
                    if first_servers(fields, i) && fields[i].1 is Object {
                        (fields[i].0, JsonView::Object(without(fields[i].1->Object_0, id)))
                    } else {
                        fields[i]
                    },
            ),
        ),
        _ => document,
    }
}

/// Whether a field is the first one that is named after the servers.
pub open spec fn first_servers(fields: Seq<(Seq<char>, JsonView)>, i: int) -> bool {
    &&& 0 <= i < fields.len()
    &&& fields[i].0 == "servers"@
    &&& forall|k: int| 0 <= k < i ==> (#[trigger] fields[k]).0 != "servers"@
}

/// What removing a server from the file of the configuration comes to: what the file is to
/// hold, where there is one, and whether the server was there. A file that holds no document is
/// left alone.
pub open spec fn server_uninstalled(file: Option<Seq<u8>>, path: Seq<char>, id: Seq<char>) -> Result<
    (Option<JsonView>, bool),
    ApiErrorView,
> {
    match file {
        None => Ok((None, false)),
        Some(bytes) => match json_document(bytes) {
            Ok(document) => Ok(
                (
                    Some(without_server(document, id)),
                    lookup(servers_of(Some(document)), id) is Some,
                ),
            ),
            Err(message) => Err(
                internal_error("invalid MCP config "@ + path + ": "@ + message),
            ),
        },
    }
}

/// Removes a server from the configuration that a file holds. `path` is the name of the file.
pub fn uninstall_mcp_catalog(file: Option<&Vec<u8>>, path: &str, id: &str) -> (result: Result<
    (Option<Json>, bool),
    ApiError,
>)
    ensures
        match result {
            Ok((document, removed)) => server_uninstalled(content(file), path@, id@) == Ok::<
                (Option<JsonView>, bool),
                ApiErrorView,
            >((opt(document), removed)),
            Err(error) => server_uninstalled(content(file), path@, id@) == Err::<
                (Option<JsonView>, bool),
                ApiErrorView,
            >(error@),
        },
{
    match file {
        None => Ok((None, false)),
        Some(bytes) => match parse_json(bytes.as_slice()) {
            Ok(document) => {
                let (left, removed) = remove_mcp_server(&document, id);
                Ok((Some(left), removed))
            },
            Err(error) => {
                let mut message = "invalid MCP config ".to_owned();
                message.push_str(path);
                message.push_str(": ");
                message.push_str(&error);
                Err(ApiError::internal(&message))
            },
        },
    }
}

/// Removes a server from a configuration. Tells whether it was there.
pub fn remove_mcp_server(document: &Json, id: &str) -> (result: (Json, bool))
    ensures
        result.0@ == without_server(document@, id@),
        result.1 == (lookup(servers_of(Some(document@)), id@) is Some),
{
    match document {
        Json::Object(fields) => {
            let ghost all = field_trees(fields@);
            let ghost wanted = without_server(document@, id@)->Object_0;
            let mut kept: Vec<(String, Json)> = Vec::new();
            let mut removed = false;
            let mut seen = false;
            let mut i: usize = 0;
            assert(field_trees(kept@) =~= wanted.take(0));
            assert(all.skip(0) =~= all);
            while i < fields.len()
                invariant
                    i <= fields@.len(),
                    document@ == JsonView::Object(all),
                    all == field_trees(fields@),
                    wanted == without_server(document@, id@)->Object_0,
                    wanted.len() == all.len(),
                    field_trees(kept@) == wanted.take(i as int),
                    !seen ==> forall|k: int| 0 <= k < i ==> (#[trigger] all[k]).0 != "servers"@,
                    seen ==> exists|k: int| 0 <= k < i && (#[trigger] all[k]).0 == "servers"@,
                    !seen ==> !removed && field(all, "servers"@) == field(
                        all.skip(i as int),
                        "servers"@,
                    ),
                    seen ==> removed == (lookup(servers_of(Some(document@)), id@) is Some),
                decreases fields@.len() - i,
            {
                let ghost before = kept@;
                assert(all[i as int] == (fields@[i as int].0@, fields@[i as int].1@));
                assert(all.skip(i as int)[0] == all[i as int]);
                assert(all.skip(i as int).skip(1) =~= all.skip(i + 1));
                let mut row = (fields[i].0.clone(), fields[i].1.copy());
                if !seen && same(&fields[i].0, "servers") {
                    seen = true;
                    assert(first_servers(all, i as int));
                    match &fields[i].1 {
                        Json::Object(servers) => {
                            let mut left = copy_fields(servers);
                            assert(field_trees(left@) =~= pairs_of(left@));
                            removed = table_get(&left, id).is_some();
                            table_remove(&mut left, id);
                            assert(field_trees(left@) =~= pairs_of(left@));
                            row = (fields[i].0.clone(), Json::Object(left));
                        },
                        _ => {},
                    }
                } else {
                    assert(!first_servers(all, i as int));
                }
                kept.push(row);
                assert(wanted[i as int] == (row.0@, row.1@));
                assert(field_trees(kept@) =~= field_trees(before).push((row.0@, row.1@)));
                assert(wanted.take(i + 1) =~= wanted.take(i as int).push(wanted[i as int]));
                i = i + 1;
            }
            assert(wanted.take(i as int) =~= wanted);
            if !seen {
                assert(field(all.skip(i as int), "servers"@) is None);
            }
            (Json::Object(kept), removed)
        },
        _ => (document.copy(), false),
    }
}

/// The first value that an MCP server needs and does not get.
pub open spec fn missing_parameter(
    parameters: Seq<CatalogParameterView>,
    values: Seq<(Seq<char>, Seq<char>)>,
) -> Option<CatalogParameterView>
    decreases parameters.len(),
{
    if parameters.len() == 0 {
        None
    } else if lookup(values, parameters[0].key) is None || is_blank(
        lookup(values, parameters[0].key)->0,
    ) {
        Some(parameters[0])
    } else {
        missing_parameter(parameters.skip(1), values)
    }
}

/// The first server of the catalog with an id, in whatever case.
pub open spec fn catalog_server(entries: Seq<McpCatalogEntryView>, id: Seq<char>) -> Option<
    McpCatalogEntryView,
>
    decreases entries.len(),
{
    if entries.len() == 0 {
        None
    } else if lower(entries[0].id) == lower(id) {
        Some(entries[0])
    } else {
        catalog_server(entries.skip(1), id)
    }
}

/// What stands against installing a server of the catalog.
pub open spec fn install_fault(
    entries: Seq<McpCatalogEntryView>,
    id: Seq<char>,
    values: Seq<(Seq<char>, Seq<char>)>,
) -> Option<ApiErrorView> {
    match catalog_server(entries, id) {
        Some(entry) => match missing_parameter(entry.required_parameters, values) {
            Some(parameter) => Some(
                bad_request(
                    "缺少必填参数 "@ + parameter.key + "（"@ + parameter.label
                        + "），请填写后再安装"@,
                ),
            ),
            None => None,
        },
        None => None,
    }
}

fn find_missing(parameters: &Vec<CatalogParameter>, values: &Vec<(String, String)>) -> (result: Option<
    usize,
>)
    ensures
        match result {
            Some(at) => at < parameters@.len() && missing_parameter(
                views(parameters@),
                pairs_of(values@),
            ) == Some(parameters@[at as int]@),
            None => missing_parameter(views(parameters@), pairs_of(values@)) is None,
        },
{
    let ghost all = views(parameters@);
    let mut i: usize = 0;
    assert(all.skip(0) =~= all);
    while i < parameters.len()
        invariant
            i <= parameters@.len(),
            all == views(parameters@),
            missing_parameter(all, pairs_of(values@)) == missing_parameter(
                all.skip(i as int),
                pairs_of(values@),
            ),
        decreases parameters@.len() - i,
    {
        assert(all.skip(i as int)[0] == parameters@[i as int]@);
        assert(all.skip(i as int).skip(1) =~= all.skip(i + 1));
        match table_get(values, &parameters[i].key) {
            Some(value) => {
                if blank(value) {
                    return Some(i);
                }
            },
            None => {
                return Some(i);
            },
        }
        i = i + 1;
    }
    None
}

/// Checks the values for a server of the catalog. A server that the catalog does not know is
/// not checked.
pub fn check_mcp_parameters(
    entries: &Vec<McpCatalogEntry>,
    id: &str,
    values: &Vec<(String, String)>,
) -> (result: Result<(), ApiError>)
    ensures
        match result {
            Ok(_) => install_fault(views(entries@), id@, pairs_of(values@)) is None,
            Err(error) => install_fault(views(entries@), id@, pairs_of(values@)) == Some(error@),
        },
{
    let ghost all = views(entries@);
    let mut i: usize = 0;
    assert(all.skip(0) =~= all);
    while i < entries.len()
        invariant
            i <= entries@.len(),
            all == views(entries@),
            catalog_server(all, id@) == catalog_server(all.skip(i as int), id@),
        decreases entries@.len() - i,
    {
        assert(all.skip(i as int)[0] == entries@[i as int]@);
        assert(all.skip(i as int).skip(1) =~= all.skip(i + 1));
        if same_ignoring_case(&entries[i].id, id) {
            let parameters = &entries[i].required_parameters;
            return match find_missing(parameters, values) {
                Some(at) => {
                    let mut message = "缺少必填参数 ".to_owned();
                    message.push_str(&parameters[at].key);
                    message.push_str("（");
                    message.push_str(&parameters[at].label);
                    message.push_str("），请填写后再安装");
                    Err(ApiError::bad_request(&message))
                },
                None => Ok(()),
            };
        }
        i = i + 1;
    }
    Ok(())
}

/// The values that a request gives: texts as they are, everything else as the empty text.
pub open spec fn given_values(fields: Seq<(Seq<char>, JsonView)>) -> Seq<(Seq<char>, Seq<char>)>
    decreases fields.len(),
{
    if fields.len() == 0 {
        Seq::empty()
    } else {
        put(
            given_values(fields.drop_last()),
            fields.last().0,
            match fields.last().1 {
                JsonView::Text(text) => text,
                _ => ""@,
            },
        )
    }
}

/// The id and the values of a request to install a server.
pub fn requested_install(body: &Json) -> (result: Result<(String, Vec<(String, String)>), ApiError>)
    ensures
        match result {
            Ok((id, values)) => text_of(member(body@, "id"@)) == Some(id@) && pairs_of(values@)
                == match member(body@, "values"@) {
                Some(JsonView::Object(fields)) => given_values(fields),
                _ => Seq::empty(),
            },
            Err(error) => text_of(member(body@, "id"@)) is None && error@ == bad_request(
                "missing id"@,
            ),
        },
{
    let id = match body.text_member("id") {
        Some(id) => id,
        None => {
            return Err(ApiError::bad_request("missing id"));
        },
    };
    let mut values: Vec<(String, String)> = Vec::new();
    assert(pairs_of(values@) =~= Seq::empty());
    match body.get("values") {
        Some(Json::Object(fields)) => {
            let ghost all = field_trees(fields@);
            let mut i: usize = 0;
            assert(all.take(0) =~= Seq::empty());
            while i < fields.len()
                invariant
                    i <= fields@.len(),
                    all == field_trees(fields@),
                    pairs_of(values@) == given_values(all.take(i as int)),
                decreases fields@.len() - i,
            {
                let ghost part = all.take(i + 1);
                assert(part.drop_last() =~= all.take(i as int));
                assert(part.last() == (fields@[i as int].0@, fields@[i as int].1@));
                let value = match &fields[i].1 {
                    Json::Text(text) => text.clone(),
                    _ => "".to_owned(),
                };
                table_put(&mut values, fields[i].0.clone(), value);
                i = i + 1;
            }
            assert(all.take(i as int) =~= all);
        },
        _ => {},
    }
    Ok((id, values))
}

/// Reads the switch that a request sets.
pub fn requested_switch(body: &Json) -> (result: Result<bool, ApiError>)
    ensures
        match result {
            Ok(enabled) => bool_of(member(body@, "enabled"@)) == Some(enabled),
            Err(error) => bool_of(member(body@, "enabled"@)) is None && error@ == bad_request(
                "missing enabled: true|false"@,
            ),
        },
{
    match body.bool_member("enabled") {
        Some(enabled) => Ok(enabled),
        None => Err(ApiError::bad_request("missing enabled: true|false")),
    }
}

// ---------------------------------------------------------------------------
// The catalog
// ---------------------------------------------------------------------------

/// A server of the catalog as clients see it.
pub open spec fn server_data(entry: McpCatalogEntryView, states: Seq<(Seq<char>, bool)>) -> JsonView {
    JsonView::Object(
        seq![
            ("id"@, JsonView::Text(entry.id)),
            ("name"@, JsonView::Text(entry.name)),
            ("description"@, JsonView::Text(entry.description)),
            ("transport"@, entry.transport),
            ("required_parameters"@, entry.parameters),
            ("installed"@, JsonView::Bool(lookup(states, entry.id) is Some)),
            ("enabled"@, JsonView::Bool(lookup(states, entry.id) == Some(true))),
        ],
    )
}

/// A skill of the catalog as clients see it.
pub open spec fn skill_data(
    entry: SkillCatalogEntryView,
    installed: Seq<Seq<char>>,
    enabled: Seq<Seq<char>>,
) -> JsonView {
    JsonView::Object(
        seq![
            ("id"@, JsonView::Text(entry.id)),
            ("name"@, JsonView::Text(entry.name)),
            ("description"@, JsonView::Text(entry.description)),
            ("repository"@, JsonView::Text(entry.repository)),
            ("installed"@, JsonView::Bool(installed.contains(entry.id))),
            (
                "enabled"@,
                JsonView::Bool(installed.contains(entry.id) && enabled.contains(entry.id)),
            ),
        ],
    )
}

/// The catalog as clients see it.
pub open spec fn catalog_data(
    servers: Seq<McpCatalogEntryView>,
    skills: Seq<SkillCatalogEntryView>,
    states: Seq<(Seq<char>, bool)>,
    installed: Seq<Seq<char>>,
    enabled: Seq<Seq<char>>,
) -> JsonView {
    JsonView::Object(
        seq![
            (
                "mcp"@,
                JsonView::Array(Seq::new(servers.len(), |i: int| server_data(servers[i], states))),
            ),
            (
                "skills"@,
                JsonView::Array(
                    Seq::new(skills.len(), |i: int| skill_data(skills[i], installed, enabled)),
                ),
            ),
        ],
    )
}

fn show_server(entry: &McpCatalogEntry, states: &Vec<(String, bool)>) -> (result: Json)
    ensures
        result@ == server_data(entry@, pairs_of(states@)),
{
    let found = table_get(states, &entry.id);
    let enabled = match found {
        Some(state) => *state,
        None => false,
    };
    let mut fields = Fields::new();
    fields.add("id", Json::text(&entry.id));
    fields.add("name", Json::text(&entry.name));
    fields.add("description", Json::text(&entry.description));
    fields.add("transport", entry.transport.copy());
    fields.add("required_parameters", entry.parameters.copy());
    fields.add("installed", Json::Bool(found.is_some()));
    fields.add("enabled", Json::Bool(enabled));
    assert(fields@ =~= server_data(entry@, pairs_of(states@))->Object_0);
    fields.done()
}

fn show_skill(entry: &SkillCatalogEntry, installed: &Vec<String>, enabled: &Vec<String>) -> (result:
    Json)
    ensures
        result@ == skill_data(entry@, texts(installed@), texts(enabled@)),
{
    let present = list_has(installed, &entry.id);
    let mut fields = Fields::new();
    fields.add("id", Json::text(&entry.id));
    fields.add("name", Json::text(&entry.name));
    fields.add("description", Json::text(&entry.description));
    fields.add("repository", Json::text(&entry.repository));
    fields.add("installed", Json::Bool(present));
    fields.add("enabled", Json::Bool(present && list_has(enabled, &entry.id)));
    assert(fields@ =~= skill_data(entry@, texts(installed@), texts(enabled@))->Object_0);
    fields.done()
}

/// Shows the catalog: what it offers, and what of it is installed and in use.
pub fn builtin_catalog_payload(
    servers: &Vec<McpCatalogEntry>,
    skills: &Vec<SkillCatalogEntry>,
    states: &Vec<(String, bool)>,
    installed: &Vec<String>,
    enabled: &Vec<String>,
) -> (result: Json)
    ensures
        result@ == catalog_data(
            views(servers@),
            views(skills@),
            pairs_of(states@),
            texts(installed@),
            texts(enabled@),
        ),
{
    let ghost wanted = catalog_data(
        views(servers@),
        views(skills@),
        pairs_of(states@),
        texts(installed@),
        texts(enabled@),
    )->Object_0;
    let ghost first = wanted[0].1->Array_0;
    let ghost second = wanted[1].1->Array_0;
    let mut mcp: Vec<Json> = Vec::new();
    let mut i: usize = 0;
    assert(trees(mcp@) =~= first.take(0));
    while i < servers.len()
        invariant
            i <= servers@.len(),
            first == Seq::new(
                views(servers@).len(),
                |i: int| server_data(views(servers@)[i], pairs_of(states@)),
            ),
            trees(mcp@) == first.take(i as int),
        decreases servers@.len() - i,
    {
        let ghost before = mcp@;
        let item = show_server(&servers[i], states);
        mcp.push(item);
        assert(trees(mcp@) =~= trees(before).push(item@));
        assert(first[i as int] == item@);
        assert(first.take(i + 1) =~= first.take(i as int).push(first[i as int]));
        i = i + 1;
    }
    assert(first.take(i as int) =~= first);
    let mut listed: Vec<Json> = Vec::new();
    let mut k: usize = 0;
    assert(trees(listed@) =~= second.take(0));
    while k < skills.len()
        invariant
            k <= skills@.len(),
            second == Seq::new(
                views(skills@).len(),
                |i: int| skill_data(views(skills@)[i], texts(installed@), texts(enabled@)),
            ),
            trees(listed@) == second.take(k as int),
        decreases skills@.len() - k,
    {
        let ghost before = listed@;
        let item = show_skill(&skills[k], installed, enabled);
        listed.push(item);
        assert(trees(listed@) =~= trees(before).push(item@));
        assert(second[k as int] == item@);
        assert(second.take(k + 1) =~= second.take(k as int).push(second[k as int]));
        k = k + 1;
    }
    assert(second.take(k as int) =~= second);
    let mut fields = Fields::new();
    fields.add("mcp", Json::Array(mcp));
    fields.add("skills", Json::Array(listed));
    assert(fields@ =~= wanted);
    fields.done()
}

// ---------------------------------------------------------------------------
// Skills from a repository
// ---------------------------------------------------------------------------

/// Whether a text can name a directory: lower-case letters, digits and hyphens, no hyphen at
/// the start.
pub open spec fn is_slug(s: Seq<char>) -> bool {
    &&& s.len() > 0
    &&& s[0] != '-'
    &&& forall|k: int|
        0 <= k < s.len() ==> ('a' <= (#[trigger] s[k]) && s[k] <= 'z') || is_digit(s[k]) || s[k]
            == '-'
}

/// Whether a text names a repository: an owner and a name, and nothing that leads upward.
pub open spec fn is_repository(s: Seq<char>) -> bool {
    contains(s, "/"@) && !starts_with(s, "/"@) && !ends_with(s, "/"@) && !contains(s, ".."@)
}

/// A text without the slashes at its start.
pub open spec fn without_leading_slashes(s: Seq<char>) -> Seq<char>
    decreases s.len(),
{
    if s.len() > 0 && s[0] == '/' {
        without_leading_slashes(s.skip(1))
    } else {
        s
    }
}

/// A text of a request, or another one.
pub open spec fn text_or(value: Option<Seq<char>>, other: Seq<char>) -> Seq<char> {
    match value {
        Some(text) => text,
        None => other,
    }
}

/// The skill that a request asks to install.
pub open spec fn requested_skill(body: JsonView) -> Result<SkillEntryView, ApiErrorView> {
    let raw = text_of(member(body, "id"@));
    let repository = text_of(member(body, "repository"@));
    let git_ref = trimmed(text_or(text_of(member(body, "ref"@)), "main"@));
    if raw is None || is_blank(raw->0) {
        Err(bad_request("missing id"@))
    } else if !is_slug(trimmed(raw->0)) {
        Err(bad_request("invalid id `"@ + trimmed(raw->0) + "`"@))
    } else if repository is None || !is_repository(repository->0) {
        Err(bad_request("missing or invalid repository (owner/repo)"@))
    } else if git_ref.len() == 0 || contains(git_ref, ".."@) {
        Err(bad_request("invalid ref"@))
    } else {
        let id = trimmed(raw->0);
        Ok(
            SkillEntryView {
                id,
                name: text_or(text_of(member(body, "name"@)), id),
                description: text_or(text_of(member(body, "description"@)), ""@),
                repository: repository->0,
                git_ref,
                subdir: without_leading_slashes(
                    trimmed(text_or(text_of(member(body, "subdir"@)), ""@)),
                ),
            },
        )
    }
}

fn slug(text: &str) -> (result: bool)
    ensures
        result == is_slug(text@),
{
    let chars = chars_of(text);
    if chars.len() == 0 || chars[0] == '-' {
        return false;
    }
    let mut i: usize = 0;
    while i < chars.len()
        invariant
            i <= chars@.len(),
            chars@ == text@,
            chars@.len() > 0,
            forall|k: int|
                0 <= k < i ==> ('a' <= (#[trigger] chars@[k]) && chars@[k] <= 'z') || is_digit(
                    chars@[k],
                ) || chars@[k] == '-',
        decreases chars@.len() - i,
    {
        let c = chars[i];
        if !(('a' <= c && c <= 'z') || is_digit_char(c) || c == '-') {
            assert(text@[i as int] == c);
            return false;
        }
        i = i + 1;
    }
    true
}

fn strip_leading_slashes(text: &str) -> (result: String)
    ensures
        result@ == without_leading_slashes(text@),
{
    let chars = chars_of(text);
    let mut i: usize = 0;
    assert(chars@.skip(0) =~= chars@);
    while i < chars.len() && chars[i] == '/'
        invariant
            i <= chars@.len(),
            without_leading_slashes(chars@) == without_leading_slashes(chars@.skip(i as int)),
        decreases chars@.len() - i,
    {
        assert(chars@.skip(i as int)[0] == chars@[i as int]);
        assert(chars@.skip(i as int).skip(1) =~= chars@.skip(i + 1));
        i = i + 1;
    }
    let rest = text.substring_char(i, chars.len()).to_owned();
    assert(rest@ =~= chars@.skip(i as int));
    rest
}

fn member_or(body: &Json, key: &str, other: &str) -> (result: String)
    ensures
        result@ == text_or(text_of(member(body@, key@)), other@),
{
    match body.text_member(key) {
        Some(text) => text,
        None => other.to_owned(),
    }
}

/// Checks a request to install a skill from a repository.
pub fn install_skill_remote(body: &Json) -> (result: Result<SkillEntry, ApiError>)
    ensures
        match result {
            Ok(entry) => requested_skill(body@) == Ok::<SkillEntryView, ApiErrorView>(entry@),
            Err(error) => requested_skill(body@) == Err::<SkillEntryView, ApiErrorView>(error@),
        },
{
    let id = match body.text_member("id") {
        Some(raw) => {
            if blank(&raw) {
                return Err(ApiError::bad_request("missing id"));
            }
            trim(&raw)
        },
        None => {
            return Err(ApiError::bad_request("missing id"));
        },
    };
    if !slug(&id) {
        let mut message = "invalid id `".to_owned();
        message.push_str(&id);
        message.push_str("`");
        return Err(ApiError::bad_request(&message));
    }
    let repository = match body.text_member("repository") {
        Some(text) => {
            let parted = has(&text, "/");
            if !parted || begins(&text, "/") || ends(&text, "/") || has(&text, "..") {
                return Err(ApiError::bad_request("missing or invalid repository (owner/repo)"));
            }
            text
        },
        None => {
            return Err(ApiError::bad_request("missing or invalid repository (owner/repo)"));
        },
    };
    let git_ref = trim(&member_or(body, "ref", "main"));
    if git_ref.as_str().is_empty() || has(&git_ref, "..") {
        return Err(ApiError::bad_request("invalid ref"));
    }
    let subdir = strip_leading_slashes(&trim(&member_or(body, "subdir", "")));
    let name = member_or(body, "name", &id);
    let description = member_or(body, "description", "");
    Ok(SkillEntry { id, name, description, repository, git_ref, subdir })
}

// ---------------------------------------------------------------------------
// Hooks
// ---------------------------------------------------------------------------

/// Whether hooks can be run at an event.
pub open spec fn is_hook_event(event: Seq<char>) -> bool {
    event == "session_start"@ || event == "turn_start"@ || event == "turn_end"@ || event
        == "pre_tool_use"@ || event == "post_tool_use"@
}

/// What stands against a hook at an event.
pub open spec fn hook_fault(event: Seq<char>, entry: JsonView) -> Option<ApiErrorView> {
    let matching = text_or(text_of(member(entry, "keyword_match"@)), "disabled"@);
    if trimmed(text_or(text_of(member(entry, "command"@)), ""@)).len() == 0 {
        Some(bad_request("hook command must not be empty"@))
    } else if matching != "disabled"@ && matching != "exact"@ && matching != "contains"@ {
        Some(bad_request("keyword_match must be disabled, exact, or contains"@))
    } else if matching != "disabled"@ && event != "turn_start"@ {
        Some(bad_request("keyword hooks are only supported for turn_start"@))
    } else if matching != "disabled"@ && trimmed(
        text_or(text_of(member(entry, "keyword"@)), ""@),
    ).len() == 0 {
        Some(bad_request("keyword must not be empty when keyword matching is enabled"@))
    } else {
        None
    }
}

/// The first fault among the hooks at an event.
pub open spec fn entries_fault(event: Seq<char>, entries: Seq<JsonView>) -> Option<ApiErrorView>
    decreases entries.len(),
{
    if entries.len() == 0 {
        None
    } else {
        match hook_fault(event, entries[0]) {
            Some(error) => Some(error),
            None => entries_fault(event, entries.skip(1)),
        }
    }
}

/// What stands against the hooks at an event.
pub open spec fn event_fault(event: Seq<char>, value: JsonView) -> Option<ApiErrorView> {
    if !is_hook_event(event) {
        Some(bad_request("unsupported hook event: "@ + event))
    } else {
        match value {
            JsonView::Array(entries) => entries_fault(event, entries),
            _ => Some(bad_request("hook event value must be an array"@)),
        }
    }
}

/// The first fault among hooks.
pub open spec fn events_fault(fields: Seq<(Seq<char>, JsonView)>) -> Option<ApiErrorView>
    decreases fields.len(),
{
    if fields.len() == 0 {
        None
    } else {
        match event_fault(fields[0].0, fields[0].1) {
            Some(error) => Some(error),
            None => events_fault(fields.skip(1)),
        }
    }
}

/// What stands against a document of hooks.
pub open spec fn hooks_fault(value: JsonView) -> Option<ApiErrorView> {
    match member(value, "hooks"@) {
        Some(JsonView::Object(fields)) => events_fault(fields),
        _ => Some(bad_request("hooks must be an object"@)),
    }
}

/// A fault, as its view.
pub open spec fn fault_view(fault: Option<ApiError>) -> Option<ApiErrorView> {
    match fault {
        Some(error) => Some(error@),
        None => None,
    }
}

fn check_hook(event: &str, entry: &Json) -> (result: Option<ApiError>)
    ensures
        fault_view(result) == hook_fault(event@, entry@),
{
    if trim(&member_or(entry, "command", "")).as_str().is_empty() {
        return Some(ApiError::bad_request("hook command must not be empty"));
    }
    let matching = member_or(entry, "keyword_match", "disabled");
    let off = same(&matching, "disabled");
    if !off && !same(&matching, "exact") && !same(&matching, "contains") {
        return Some(ApiError::bad_request("keyword_match must be disabled, exact, or contains"));
    }
    if !off && !same(event, "turn_start") {
        return Some(ApiError::bad_request("keyword hooks are only supported for turn_start"));
    }
    if !off && trim(&member_or(entry, "keyword", "")).as_str().is_empty() {
        return Some(
            ApiError::bad_request("keyword must not be empty when keyword matching is enabled"),
        );
    }
    None
}

fn check_event(event: &str, value: &Json) -> (result: Option<ApiError>)
    ensures
        fault_view(result) == event_fault(event@, value@),
{
    if !same(event, "session_start") && !same(event, "turn_start") && !same(event, "turn_end")
        && !same(event, "pre_tool_use") && !same(event, "post_tool_use") {
        return Some(
            ApiError::bad_request(&"unsupported hook event: ".to_owned().concat(event)),
        );
    }
    match value {
        Json::Array(entries) => {
            let ghost all = trees(entries@);
            let mut i: usize = 0;
            assert(all.skip(0) =~= all);
            while i < entries.len()
                invariant
                    i <= entries@.len(),
                    all == trees(entries@),
                    entries_fault(event@, all) == entries_fault(event@, all.skip(i as int)),
                    event_fault(event@, value@) == entries_fault(event@, all),
                decreases entries@.len() - i,
            {
                assert(all.skip(i as int)[0] == entries@[i as int]@);
                assert(all.skip(i as int).skip(1) =~= all.skip(i + 1));
                let fault = check_hook(event, &entries[i]);
                if fault.is_some() {
                    return fault;
                }
                i = i + 1;
            }
            None
        },
        _ => Some(ApiError::bad_request("hook event value must be an array")),
    }
}

/// The document of hooks that a file holds; one without hooks where it holds none.
pub open spec fn hooks_in(file: Option<Seq<u8>>) -> JsonView {
    match stored_document(file) {
        Some(value) => value,
        None => JsonView::Object(seq![("hooks"@, JsonView::Object(Seq::empty()))]),
    }
}

/// Reads the document of hooks.
pub fn get_hooks(file: Option<&Vec<u8>>) -> (result: Json)
    ensures
        result@ == hooks_in(content(file)),
{
    match read_document(file) {
        Some(value) => value,
        None => {
            let mut fields = Fields::new();
            fields.add("hooks", Fields::new().done());
            assert(fields@ =~= seq![("hooks"@, JsonView::Object(Seq::empty()))]);
            fields.done()
        },
    }
}

/// Checks a document of hooks.
pub fn set_hooks(value: &Json) -> (result: Result<(), ApiError>)
    ensures
        match result {
            Ok(_) => hooks_fault(value@) is None,
            Err(error) => hooks_fault(value@) == Some(error@),
        },
{
    match value.get("hooks") {
        Some(Json::Object(fields)) => {
            let ghost all = field_trees(fields@);
            let mut i: usize = 0;
            assert(all.skip(0) =~= all);
            while i < fields.len()
                invariant
                    i <= fields@.len(),
                    all == field_trees(fields@),
                    events_fault(all) == events_fault(all.skip(i as int)),
                    hooks_fault(value@) == events_fault(all),
                decreases fields@.len() - i,
            {
                assert(all.skip(i as int)[0] == (fields@[i as int].0@, fields@[i as int].1@));
                assert(all.skip(i as int).skip(1) =~= all.skip(i + 1));
                match check_event(&fields[i].0, &fields[i].1) {
                    Some(error) => {
                        return Err(error);
                    },
                    None => {},
                }
                i = i + 1;
            }
            Ok(())
        },
        _ => Err(ApiError::bad_request("hooks must be an object")),
    }
}

// ---------------------------------------------------------------------------
// The registry
// ---------------------------------------------------------------------------

/// What was fetched, as it is kept.
pub open spec fn registry_payload(
    registry: JsonView,
    github: JsonView,
    app: JsonView,
) -> JsonView {
    JsonView::Object(
        seq![
            ("registry"@, registry),
            ("stats"@, JsonView::Object(seq![("github"@, github), ("app"@, app)])),
        ],
    )
}

/// A value that may be absent.
pub open spec fn or_null(value: Option<JsonView>) -> JsonView {
    match value {
        Some(json) => json,
        None => JsonView::Null,
    }
}

fn value_or_null(value: &Option<Json>) -> (result: Json)
    ensures
        result@ == or_null(opt(*value)),
{
    match value {
        Some(json) => json.copy(),
        None => Json::Null,
    }
}

/// Puts together what was fetched.
pub fn build_registry_payload(registry: &Option<Json>, github: &Option<Json>, app: &Option<Json>)
    -> (result: Json)
    ensures
        result@ == registry_payload(
            or_null(opt(*registry)),
            or_null(opt(*github)),
            or_null(opt(*app)),
        ),
{
    let ghost wanted = registry_payload(
        or_null(opt(*registry)),
        or_null(opt(*github)),
        or_null(opt(*app)),
    )->Object_0;
    let mut stats = Fields::new();
    stats.add("github", value_or_null(github));
    stats.add("app", value_or_null(app));
    assert(stats@ =~= wanted[1].1->Object_0);
    let mut fields = Fields::new();
    fields.add("registry", value_or_null(registry));
    fields.add("stats", stats.done());
    assert(fields@ =~= wanted);
    fields.done()
}

/// What is shown after an attempt to fetch the registry, and whether it is to be kept on disk:
/// without a registry, what was kept on disk takes its place, where there is any.
pub fn choose_registry(fetched: Json, kept: Option<Json>) -> (result: (Json, bool))
    ensures
        ({
            let absent = member(fetched@, "registry"@) is None || member(fetched@, "registry"@)
                == Some(JsonView::Null);
            result.0@ == if absent && kept is Some {
                kept->0@
            } else {
                fetched@
            } && result.1 == !absent
        }),
{
    let absent = match fetched.get("registry") {
        Some(Json::Null) => true,
        Some(_) => false,
        None => true,
    };
    if absent {
        match kept {
            Some(payload) => (payload, false),
            None => (fetched, false),
        }
    } else {
        (fetched, true)
    }
}

/// For how many seconds what was fetched of the registry is shown again.
pub const REGISTRY_CACHE_SECS: u64 = 600;

/// Tells whether what was fetched of the registry so many seconds ago is still shown.
pub fn registry_is_fresh(age_seconds: u64) -> (result: bool)
    ensures
        result == (age_seconds < REGISTRY_CACHE_SECS),
{
    age_seconds < REGISTRY_CACHE_SECS
}

/// From where the registry and its statistics are fetched; of several addresses the first that
/// answers counts.
#[derive(Debug)]
pub struct RegistrySources {
    pub registry: Vec<String>,
    pub github: Vec<String>,
    pub app: Vec<String>,
}

/// What a `RegistrySources` holds.
#[verifier::ext_equal]
pub struct RegistrySourcesView {
    pub registry: Seq<Seq<char>>,
    pub github: Seq<Seq<char>>,
    pub app: Seq<Seq<char>>,
}

impl View for RegistrySources {
    type V = RegistrySourcesView;

    open spec fn view(&self) -> RegistrySourcesView {
        RegistrySourcesView {
            registry: texts(self.registry@),
            github: texts(self.github@),
            app: texts(self.app@),
        }
    }
}

/// The addresses to fetch from: an address that was set for the registry stands for the known
/// ones, and the statistics of the repositories stand beside it.
pub open spec fn sources_for(registry: Option<Seq<char>>, app: Option<Seq<char>>)
    -> RegistrySourcesView {
    RegistrySourcesView {
        registry: match registry {
            Some(url) => seq![url],
            None => seq![
                "https://raw.githubusercontent.com/TensorHub-ORG/coomi-registry/main/registry.json"@,
                "https://cdn.jsdelivr.net/gh/TensorHub-ORG/coomi-registry@main/registry.json"@,
            ],
        },
        github: match registry {
            Some(url) => seq![sibling(url, "stats-github.json"@)],
            None => seq![
                "https://raw.githubusercontent.com/TensorHub-ORG/coomi-registry/main/stats-github.json"@,
                "https://cdn.jsdelivr.net/gh/TensorHub-ORG/coomi-registry@main/stats-github.json"@,
            ],
        },
        app: match app {
            Some(url) => seq![url],
            None => seq!["https://coomi-stats.tensorhub.workers.dev/stats-app.json"@],
        },
    }
}

/// Returns the addresses to fetch the registry and its statistics from. `registry` and `app`
/// are the addresses that were set for this program.
pub fn registry_sources(registry: &Option<String>, app: &Option<String>) -> (result: RegistrySources)
    ensures
        result@ == sources_for(opt(*registry), opt(*app)),
{
    let mut offers: Vec<String> = Vec::new();
    let mut counts: Vec<String> = Vec::new();
    match registry {
        Some(url) => {
            offers.push(url.clone());
            counts.push(sibling_url(url, "stats-github.json"));
        },
        None => {
            offers.push(
                "https://raw.githubusercontent.com/TensorHub-ORG/coomi-registry/main/registry.json".to_owned(),
            );
            offers.push(
                "https://cdn.jsdelivr.net/gh/TensorHub-ORG/coomi-registry@main/registry.json".to_owned(),
            );
            counts.push(
                "https://raw.githubusercontent.com/TensorHub-ORG/coomi-registry/main/stats-github.json".to_owned(),
            );
            counts.push(
                "https://cdn.jsdelivr.net/gh/TensorHub-ORG/coomi-registry@main/stats-github.json".to_owned(),
            );
        },
    }
    let mut own: Vec<String> = Vec::new();
    match app {
        Some(url) => own.push(url.clone()),
        None => own.push("https://coomi-stats.tensorhub.workers.dev/stats-app.json".to_owned()),
    }
    let ghost wanted = sources_for(opt(*registry), opt(*app));
    assert(texts(offers@) =~= wanted.registry);
    assert(texts(counts@) =~= wanted.github);
    assert(texts(own@) =~= wanted.app);
    RegistrySources { registry: offers, github: counts, app: own }
}

/// The market as clients see it.
pub open spec fn market_data(builtin: JsonView, remote: JsonView, installed: Seq<Seq<char>>) -> JsonView {
    JsonView::Object(
        seq![
            ("builtin"@, builtin),
            (
                "remote"@,
                match member(remote, "registry"@) {
                    Some(value) => value,
                    None => JsonView::Object(
                        seq![
                            ("skills"@, JsonView::Array(Seq::empty())),
                            ("mcps"@, JsonView::Array(Seq::empty())),
                            ("workflows"@, JsonView::Array(Seq::empty())),
                            ("updated_at"@, JsonView::Null),
                        ],
                    ),
                },
            ),
            (
                "stats"@,
                match member(remote, "stats"@) {
                    Some(value) => value,
                    None => JsonView::Object(
                        seq![("github"@, JsonView::Null), ("app"@, JsonView::Null)],
                    ),
                },
            ),
            ("installed"@, JsonView::Array(text_values(installed))),
        ],
    )
}

fn no_values() -> (result: Json)
    ensures
        result@ == JsonView::Array(Seq::empty()),
{
    let items: Vec<Json> = Vec::new();
    assert(trees(items@) =~= Seq::empty());
    Json::Array(items)
}

/// Shows the market: what is built in, what the registry offers, what is installed.
pub fn registry_index(builtin: &Json, remote: &Json, installed: &Vec<String>) -> (result: Json)
    ensures
        result@ == market_data(builtin@, remote@, texts(installed@)),
{
    let ghost wanted = market_data(builtin@, remote@, texts(installed@))->Object_0;
    let offered = match remote.get("registry") {
        Some(value) => value.copy(),
        None => {
            let mut empty = Fields::new();
            empty.add("skills", no_values());
            empty.add("mcps", no_values());
            empty.add("workflows", no_values());
            empty.add("updated_at", Json::Null);
            assert(empty@ =~= wanted[1].1->Object_0);
            empty.done()
        },
    };
    let stats = match remote.get("stats") {
        Some(value) => value.copy(),
        None => {
            let mut empty = Fields::new();
            empty.add("github", Json::Null);
            empty.add("app", Json::Null);
            assert(empty@ =~= wanted[2].1->Object_0);
            empty.done()
        },
    };
    let mut fields = Fields::new();
    fields.add("builtin", builtin.copy());
    fields.add("remote", offered);
    fields.add("stats", stats);
    fields.add("installed", text_array(installed));
    assert(fields@ =~= wanted);
    fields.done()
}

// ---------------------------------------------------------------------------
// Assignments
// ---------------------------------------------------------------------------

/// What a text `key=value` assigns.
pub open spec fn assignment(text: Seq<char>) -> Result<(Seq<char>, Seq<char>), Seq<char>> {
    match cut_once(text, '=') {
        None => Err("expected key=value, got `"@ + text + "`"@),
        Some((key, value)) => if trimmed(key).len() == 0 {
            Err("parameter key must not be empty"@)
        } else {
            Ok((trimmed(key), value))
        },
    }
}

/// What texts `key=value` assign; the first fault decides, a later value replaces an earlier
/// one.
pub open spec fn assignments(list: Seq<Seq<char>>) -> Result<
    Seq<(Seq<char>, Seq<char>)>,
    Seq<char>,
>
    decreases list.len(),
{
    if list.len() == 0 {
        Ok(Seq::empty())
    } else {
        match assignments(list.drop_last()) {
            Err(message) => Err(message),
            Ok(before) => match assignment(list.last()) {
                Err(message) => Err(message),
                Ok((key, value)) => Ok(put(before, key, value)),
            },
        }
    }
}

/// Reads texts `key=value`.
pub fn parse_assignments(values: &Vec<String>) -> (result: Result<Vec<(String, String)>, String>)
    ensures
        match result {
            Ok(rows) => assignments(texts(values@)) == Ok::<
                Seq<(Seq<char>, Seq<char>)>,
                Seq<char>,
            >(pairs_of(rows@)),
            Err(message) => assignments(texts(values@)) == Err::<
                Seq<(Seq<char>, Seq<char>)>,
                Seq<char>,
            >(message@),
        },
{
    let ghost all = texts(values@);
    let mut rows: Vec<(String, String)> = Vec::new();
    let mut i: usize = 0;
    assert(pairs_of(rows@) =~= Seq::empty());
    assert(all.take(0) =~= Seq::empty());
    while i < values.len()
        invariant
            i <= values@.len(),
            all == texts(values@),
            assignments(all.take(i as int)) == Ok::<Seq<(Seq<char>, Seq<char>)>, Seq<char>>(
                pairs_of(rows@),
            ),
        decreases values@.len() - i,
    {
        let ghost part = all.take(i + 1);
        assert(part.drop_last() =~= all.take(i as int));
        assert(part.last() == values@[i as int]@);
        match split_once(&values[i], '=') {
            None => {
                let mut message = "expected key=value, got `".to_owned();
                message.push_str(&values[i]);
                message.push_str("`");
                proof {
                    fault_stays(all, i + 1);
                }
                return Err(message);
            },
            Some((key, value)) => {
                let name = trim(&key);
                if name.as_str().is_empty() {
                    proof {
                        fault_stays(all, i + 1);
                    }
                    return Err("parameter key must not be empty".to_owned());
                }
                table_put(&mut rows, name, value);
            },
        }
        i = i + 1;
    }
    assert(all.take(i as int) =~= all);
    Ok(rows)
}

proof fn fault_stays(list: Seq<Seq<char>>, n: int)
    requires
        0 <= n <= list.len(),
        assignments(list.take(n)) is Err,
    ensures
        assignments(list) == assignments(list.take(n)),
    decreases list.len() - n,
{
    if n == list.len() {
        assert(list.take(n) =~= list);
    } else {
        assert(list.take(n + 1).drop_last() =~= list.take(n));
        fault_stays(list, n + 1);
    }
}

// ---------------------------------------------------------------------------
// Laws
// ---------------------------------------------------------------------------

/// A skill that may be installed from a repository names its directory by a slug, and neither
/// its repository nor its ref leads upward.
pub proof fn installable_skills_stay_in_place(body: JsonView)
    ensures
        match requested_skill(body) {
            Ok(entry) => is_slug(entry.id) && !contains(entry.repository, ".."@) && !contains(
                entry.git_ref,
                ".."@,
            ) && !starts_with(entry.subdir, "/"@),
            Err(_) => true,
        },
{
    if let Ok(entry) = requested_skill(body) {
        stripped_has_no_slash(trimmed(text_or(text_of(member(body, "subdir"@)), ""@)));
        reveal_strlit("/");
        if starts_with(entry.subdir, "/"@) {
            assert(entry.subdir.take(1)[0] == entry.subdir[0]);
        }
    }
}

proof fn stripped_has_no_slash(s: Seq<char>)
    ensures
        without_leading_slashes(s).len() > 0 ==> without_leading_slashes(s)[0] != '/',
    decreases s.len(),
{
    if s.len() > 0 && s[0] == '/' {
        stripped_has_no_slash(s.skip(1));
    }
}

/// In a document of hooks that passes the check, a hook that waits for a keyword waits at the
/// start of a turn and has one.
pub proof fn keyword_hooks_wait_at_the_start(event: Seq<char>, entries: Seq<JsonView>, i: int)
    requires
        event_fault(event, JsonView::Array(entries)) is None,
        0 <= i < entries.len(),
    ensures
        is_hook_event(event),
        trimmed(text_or(text_of(member(entries[i], "command"@)), ""@)).len() > 0,
        text_or(text_of(member(entries[i], "keyword_match"@)), "disabled"@) != "disabled"@ ==> event
            == "turn_start"@ && trimmed(
            text_or(text_of(member(entries[i], "keyword"@)), ""@),
        ).len() > 0,
    decreases entries.len(),
{
    if i > 0 {
        assert(entries.skip(1)[i - 1] == entries[i]);
        keyword_hooks_wait_at_the_start(event, entries.skip(1), i - 1);
    }
}

/// A server that was removed is gone from the configuration.
pub proof fn removed_servers_are_gone(document: JsonView, id: Seq<char>)
    ensures
        lookup(servers_of(Some(without_server(document, id))), id) is None,
{
    if let JsonView::Object(fields) = document {
        let now = without_server(document, id)->Object_0;
        first_field_changes(fields, now, id, 0);
        assert(fields.skip(0) =~= fields);
        assert(now.skip(0) =~= now);
        match field(fields, "servers"@) {
            Some(JsonView::Object(servers)) => {
                removed_is_gone(servers, id);
            },
            _ => {},
        }
    }
}

proof fn first_field_changes(
    fields: Seq<(Seq<char>, JsonView)>,
    now: Seq<(Seq<char>, JsonView)>,
    id: Seq<char>,
    n: int,
)
    requires
        0 <= n <= fields.len(),
        now == without_server(JsonView::Object(fields), id)->Object_0,
        forall|k: int| 0 <= k < n ==> (#[trigger] fields[k]).0 != "servers"@,
    ensures
        field(now.skip(n), "servers"@) == match field(fields.skip(n), "servers"@) {
            Some(JsonView::Object(servers)) => Some(JsonView::Object(without(servers, id))),
            other => other,
        },
    decreases fields.len() - n,
{
    if n < fields.len() {
        assert(fields.skip(n)[0] == fields[n]);
        assert(now.skip(n)[0] == now[n]);
        if fields[n].0 == "servers"@ {
            assert(first_servers(fields, n));
        } else {
            assert(fields.skip(n).skip(1) =~= fields.skip(n + 1));
            assert(now.skip(n).skip(1) =~= now.skip(n + 1));
            first_field_changes(fields, now, id, n + 1);
        }
    }
}

} // verus!
