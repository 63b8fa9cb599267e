//! The list of servers, read from TOML.

use vstd::prelude::*;
use vstd::std_specs::iter::IteratorSpec;
use crate::text::{same, texts};

verus! {

/// The servers that come with the launcher. The first one is chosen where nothing else was.
pub const DEFAULT_SERVERS_TOML: &'static str =
    "[[server]]\nname = \"Bahamut (main)\"\naddress = \"bahamut.stegall.me\"\nlogin_url = \"\"\napi_url = \"https://bahamut.stegall.me/api/v1\"\n\n[[server]]\nname = \"Localhost\"\naddress = \"127.0.0.1\"\nlogin_url = \"http://127.0.0.1:54993/login\"\n\n[[server]]\nname = \"Project Meteor\"\naddress = \"127.0.0.1\"\nlogin_url = \"http://127.0.0.1:8080/login.php\"\n\n[[server]]\nname = \"AetherXIV 1.3 (Docker Local)\"\naddress = \"127.0.0.1\"\nlogin_url = \"http://127.0.0.1:8080/login/index.php\"\n";

/// One server.
#[derive(Debug, PartialEq, Eq)]
pub struct ServerDefinition {
    pub name: String,
    pub address: String,
    /// The web page for the login, if there is one.
    pub login_url: String,
    /// The base of the JSON interface for the login, for servers without a web page.
    pub api_url: String,
}

/// The texts of a server.
pub struct ServerView {
    pub name: Seq<char>,
    pub address: Seq<char>,
    pub login_url: Seq<char>,
    pub api_url: Seq<char>,
}

impl View for ServerDefinition {
    type V = ServerView;

    open spec fn view(&self) -> ServerView {
        ServerView {
            name: self.name@,
            address: self.address@,
            login_url: self.login_url@,
            api_url: self.api_url@,
        }
    }
}

/// The servers in their order.
#[derive(Debug)]
pub struct ServerDefinitions {
    servers: Vec<ServerDefinition>,
}

impl View for ServerDefinitions {
    type V = Seq<ServerView>;

    closed spec fn view(&self) -> Seq<ServerView> {
        views(self.servers@)
    }
}

/// The texts of the servers.
pub open spec fn views(servers: Seq<ServerDefinition>) -> Seq<ServerView> {
    servers.map_values(|s: ServerDefinition| s@)
}

/// Why no list could be read.
#[derive(Debug, PartialEq, Eq)]
pub enum ServersError {
    /// The text is no TOML.
    Syntax,
    /// The TOML is no list of servers.
    Shape,
}

impl ServersError {
    /// The text of the error.
    pub fn message(&self) -> (r: String)
        ensures
            r@ == "parsing servers TOML"@,
    {
        "parsing servers TOML".to_owned()
    }
}

/// Why a text is no TOML.
#[verifier::external_type_specification]
#[verifier::external_body]
pub struct ExTomlError(toml::de::Error);

/// An element of a TOML array, as far as servers are concerned. Each text is `None` where there is
/// a value of another type.
#[derive(Debug)]
pub struct RawEntry {
    /// For a table: the value of each key that was asked for, where it has the key.
    pub table: Option<Vec<Option<Option<String>>>>,
    /// For an array: its elements.
    pub row: Option<Vec<Option<String>>>,
}

/// The texts of such an element.
pub struct RawView {
    pub table: Option<Seq<Option<Option<Seq<char>>>>>,
    pub row: Option<Seq<Option<Seq<char>>>>,
}

impl View for RawEntry {
    type V = RawView;

    open spec fn view(&self) -> RawView {
        RawView {
            table: match self.table {
                Some(fields) => Some(fields@.map_values(|f: Option<Option<String>>| field_view(f))),
                None => None,
            },
            row: match self.row {
                Some(cells) => Some(
                    cells@.map_values(|c: Option<String>| crate::text::text_of(c)),
                ),
                None => None,
            },
        }
    }
}

/// The text of a field that a table may have.
pub open spec fn field_view(field: Option<Option<String>>) -> Option<Option<Seq<char>>> {
    match field {
        Some(value) => Some(crate::text::text_of(value)),
        None => None,
    }
}

/// The texts of the elements of an array that a document may have.
pub open spec fn entries_view(entries: Option<Option<Vec<RawEntry>>>) -> Option<
    Option<Seq<RawView>>,
> {
    match entries {
        Some(Some(items)) => Some(Some(items@.map_values(|e: RawEntry| e@))),
        Some(None) => Some(None),
        None => None,
    }
}

/// What a TOML document has at the key `list`: the elements of an array there, each with its
/// values at `keys`; `Some(None)` inside where there is something else, `None` inside where there
/// is nothing. `None` where the text is no TOML.
pub uninterp spec fn toml_entries(
    text: Seq<char>,
    list: Seq<char>,
    keys: Seq<Seq<char>>,
) -> Option<Option<Option<Seq<RawView>>>>;

/// Reads a TOML document with `str::parse` for `toml::Table`, and takes out what [`toml_entries`]
/// names with `get`, `as_array`, `as_table` and `as_str`.
///
/// Not proved: what the TOML grammar makes of a text. A table whose first key is the crate's own
/// mark for dates, `$__toml_private_datetime`, is taken for a date, and so for no table.
#[verifier::external_body]
fn read_entries(text: &str, list: &str, keys: &Vec<String>) -> (r: Result<
    Option<Option<Vec<RawEntry>>>,
    toml::de::Error,
>)
    ensures
        toml_entries(text@, list@, texts(keys@)) == match r {
            Ok(entries) => Some(entries_view(entries)),
            Err(_) => None,
        },
{
    let document: toml::Table = text.parse::<toml::Table>()?;
    let entry = |e: &toml::Value| RawEntry {
        table: e.as_table().map(
            |t| keys.iter().map(|k| t.get(k).map(|v| v.as_str().map(String::from))).collect(),
        ),
        row: e.as_array().map(
            |cells| cells.iter().map(|v| v.as_str().map(String::from)).collect(),
        ),
    };
    Ok(document.get(list).map(|v| v.as_array().map(|items| items.iter().map(entry).collect())))
}

/// The keys of a server's table.
pub open spec fn server_keys() -> Seq<Seq<char>> {
    seq!["name"@, "address"@, "login_url"@, "api_url"@]
}

/// The server that an element stands for: a table with the first three keys, or an array with
/// those values in that order. The fourth may be missing.
pub open spec fn decoded(entry: RawView) -> Option<ServerView> {
    match entry.table {
        Some(fields) => if fields.len() != server_keys().len() {
            None
        } else {
            match (fields[0], fields[1], fields[2]) {
                (Some(Some(name)), Some(Some(address)), Some(Some(login_url))) => match fields[3] {
                    None => Some(ServerView { name, address, login_url, api_url: Seq::empty() }),
                    Some(Some(api_url)) => Some(ServerView { name, address, login_url, api_url }),
                    Some(None) => None,
                },
                _ => None,
            }
        },
        None => match entry.row {
            Some(cells) => if cells.len() < 3 {
                None
            } else {
                match (cells[0], cells[1], cells[2]) {
                    (Some(name), Some(address), Some(login_url)) => if cells.len() == 3 {
                        Some(ServerView { name, address, login_url, api_url: Seq::empty() })
                    } else {
                        match cells[3] {
                            Some(api_url) => Some(
                                ServerView { name, address, login_url, api_url },
                            ),
                            None => None,
                        }
                    },
                    _ => None,
                }
            },
            None => None,
        },
    }
}

/// Whether every element stands for a server.
pub open spec fn all_decode(entries: Seq<RawView>) -> bool {
    forall|i: int| 0 <= i < entries.len() ==> decoded(#[trigger] entries[i]) is Some
}

/// The servers that the elements stand for.
pub open spec fn decoded_all(entries: Seq<RawView>) -> Seq<ServerView> {
    entries.map_values(|e: RawView| decoded(e)->0)
}

/// What comes of the array that a document has, or of what it has in its place.
pub open spec fn reads_as(
    entries: Option<Option<Seq<RawView>>>,
    r: Result<ServerDefinitions, ServersError>,
) -> bool {
    match entries {
        None => r is Ok && r->Ok_0@ == Seq::<ServerView>::empty(),
        Some(None) => r is Err && r->Err_0 is Shape,
        Some(Some(items)) => if all_decode(items) {
            r is Ok && r->Ok_0@ == offered(decoded_all(items))
        } else {
            r is Err && r->Err_0 is Shape
        },
    }
}

/// The place of the server with the given name, or the number of servers.
pub open spec fn place_of(servers: Seq<ServerView>, name: Seq<char>) -> int
    decreases servers.len(),
{
    if servers.len() == 0 || servers.first().name == name {
        0
    } else {
        1 + place_of(servers.drop_first(), name)
    }
}

/// The servers as they are offered: those without a name are left out, and of several with the
/// same name the last definition stands in the place of the first.
pub open spec fn offered(list: Seq<ServerView>) -> Seq<ServerView>
    decreases list.len(),
{
    if list.len() == 0 {
        Seq::empty()
    } else {
        let before = offered(list.drop_last());
        let server = list.last();
        let place = place_of(before, server.name);
        if server.name.len() == 0 {
            before
        } else if place < before.len() {
            before.update(place, server)
        } else {
            before.push(server)
        }
    }
}

/// The names of the list without the empty one, each where it first occurs.
pub open spec fn names_in_order(list: Seq<ServerView>) -> Seq<Seq<char>>
    decreases list.len(),
{
    if list.len() == 0 {
        Seq::empty()
    } else {
        let before = names_in_order(list.drop_last());
        let name = list.last().name;
        if name.len() == 0 || before.contains(name) {
            before
        } else {
            before.push(name)
        }
    }
}

/// The names of the servers.
pub open spec fn names_of(servers: Seq<ServerView>) -> Seq<Seq<char>> {
    servers.map_values(|s: ServerView| s.name)
}

/// A place that was found has the name, and no place before it has.
pub proof fn lemma_place_of(servers: Seq<ServerView>, name: Seq<char>)
    ensures
        0 <= place_of(servers, name) <= servers.len(),
        place_of(servers, name) < servers.len() ==> servers[place_of(servers, name)].name == name,
        forall|i: int| 0 <= i < place_of(servers, name) ==> (#[trigger] servers[i]).name != name,
    decreases servers.len(),
{
    if servers.len() > 0 && servers.first().name != name {
        let rest = servers.drop_first();
        lemma_place_of(rest, name);
        assert forall|i: int| 0 <= i < place_of(servers, name) implies (
        #[trigger] servers[i]).name != name by {
            if i > 0 {
                assert(servers[i] == rest[i - 1]);
            }
        }
    }
}

/// The servers are offered in the order in which their names first occur in the file.
pub proof fn law_file_order_is_kept(list: Seq<ServerView>)
    ensures
        names_of(offered(list)) == names_in_order(list),
    decreases list.len(),
{
    if list.len() > 0 {
        law_file_order_is_kept(list.drop_last());
        let before = offered(list.drop_last());
        let server = list.last();
        let place = place_of(before, server.name);
        lemma_place_of(before, server.name);
        let names = names_of(before);
        if place < before.len() {
            assert(names[place] == server.name);
            assert(names_of(before.update(place, server)) =~= names);
        } else {
            assert(!names.contains(server.name)) by {
                if names.contains(server.name) {
                    let i = choose|i: int| 0 <= i < names.len() && names[i] == server.name;
                    assert(before[i].name == server.name);
                }
            }
            assert(names_of(before.push(server)) =~= names.push(server.name));
        }
    } else {
        assert(names_of(offered(list)) =~= names_in_order(list));
    }
}

/// No two servers that are offered have the same name, and none has an empty one.
pub proof fn law_names_are_distinct(list: Seq<ServerView>)
    ensures
        forall|i: int, j: int|
            #![trigger offered(list)[i], offered(list)[j]]
            0 <= i < j < offered(list).len() ==> offered(list)[i].name != offered(list)[j].name,
        forall|i: int| 0 <= i < offered(list).len() ==> (#[trigger] offered(list)[i]).name.len() > 0,
    decreases list.len(),
{
    if list.len() > 0 {
        law_names_are_distinct(list.drop_last());
        let before = offered(list.drop_last());
        lemma_place_of(before, list.last().name);
    }
}

/// A server that is offered is defined as in the last place of the file that has its name.
pub proof fn law_last_definition_wins(list: Seq<ServerView>, k: int)
    requires
        0 <= k < list.len(),
        list[k].name.len() > 0,
        forall|j: int| k < j < list.len() ==> (#[trigger] list[j]).name != list[k].name,
    ensures
        offered(list).contains(list[k]),
    decreases list.len(),
{
    let front = list.drop_last();
    let before = offered(front);
    let server = list.last();
    let place = place_of(before, server.name);
    lemma_place_of(before, server.name);
    let now = offered(list);
    if k == list.len() - 1 {
        if place < before.len() {
            assert(now[place] == list[k]);
        } else {
            assert(now[before.len() as int] == list[k]);
        }
    } else {
        assert(front[k] == list[k]);
        assert forall|j: int| k < j < front.len() implies (#[trigger] front[j]).name
            != front[k].name by {
            assert(front[j] == list[j]);
        }
        law_last_definition_wins(front, k);
        let i = choose|i: int| 0 <= i < before.len() && before[i] == list[k];
        assert(server.name != list[k].name) by {
            assert(list[list.len() - 1] == server);
        }
        assert(now[i] == list[k]);
    }
}

/// Reads one element; see [`decoded`].
fn decode(entry: &RawEntry) -> (r: Option<ServerDefinition>)
    ensures
        match r {
            Some(server) => decoded(entry@) == Some(server@),
            None => decoded(entry@) is None,
        },
{
    let ghost view: RawView = entry@;
    match &entry.table {
        Some(fields) => {
            if fields.len() != 4 {
                return None;
            }
            let ghost seen: Seq<Option<Option<Seq<char>>>> = view.table->0;
            assert(seen[0] == field_view(fields@[0]));
            assert(seen[1] == field_view(fields@[1]));
            assert(seen[2] == field_view(fields@[2]));
            assert(seen[3] == field_view(fields@[3]));
            match (&fields[0], &fields[1], &fields[2]) {
                (Some(Some(name)), Some(Some(address)), Some(Some(login_url))) => {
                    let api_url: String = match &fields[3] {
                        None => String::new(),
                        Some(Some(api_url)) => api_url.clone(),
                        Some(None) => {
                            return None;
                        },
                    };
                    assert(fields@[3] is None ==> api_url@ =~= Seq::<char>::empty());
                    Some(
                        ServerDefinition {
                            name: name.clone(),
                            address: address.clone(),
                            login_url: login_url.clone(),
                            api_url,
                        },
                    )
                },
                _ => None,
            }
        },
        None => match &entry.row {
            Some(cells) => {
                let ghost seen: Seq<Option<Seq<char>>> = view.row->0;
                if cells.len() < 3 {
                    return None;
                }
                assert(seen[0] == crate::text::text_of(cells@[0]));
                assert(seen[1] == crate::text::text_of(cells@[1]));
                assert(seen[2] == crate::text::text_of(cells@[2]));
                match (&cells[0], &cells[1], &cells[2]) {
                    (Some(name), Some(address), Some(login_url)) => {
                        let api_url: String = if cells.len() == 3 {
                            String::new()
                        } else {
                            assert(seen[3] == crate::text::text_of(cells@[3]));
                            match &cells[3] {
                                Some(api_url) => api_url.clone(),
                                None => {
                                    return None;
                                },
                            }
                        };
                        assert(cells.len() == 3 ==> api_url@ =~= Seq::<char>::empty());
                        Some(
                            ServerDefinition {
                                name: name.clone(),
                                address: address.clone(),
                                login_url: login_url.clone(),
                                api_url,
                            },
                        )
                    },
                    _ => None,
                }
            },
            None => None,
        },
    }
}

impl ServerDefinitions {
    /// The place of the server with the given name; see [`place_of`].
    fn find(servers: &Vec<ServerDefinition>, name: &str) -> (r: usize)
        ensures
            r == place_of(views(servers@), name@),
            r <= servers.len(),
    {
        let ghost all: Seq<ServerView> = views(servers@);
        let mut i: usize = 0;
        assert(all.skip(0) =~= all);
        while i < servers.len()
            invariant
                i <= servers.len(),
                all == views(servers@),
                place_of(all, name@) == i + place_of(all.skip(i as int), name@),
            decreases servers.len() - i,
        {
            assert(all.skip(i as int).first() == servers@[i as int]@);
            if same(servers[i].name.as_str(), name) {
                return i;
            }
            assert(all.skip(i as int).drop_first() =~= all.skip(i + 1));
            i = i + 1;
        }
        i
    }

    /// The servers that are offered out of a list; see [`offered`].
    pub fn from_list(list: Vec<ServerDefinition>) -> (r: ServerDefinitions)
        ensures
            r@ == offered(views(list@)),
    {
        let ghost all: Seq<ServerView> = views(list@);
        let mut left: Vec<ServerDefinition> = list;
        let mut reversed: Vec<ServerDefinition> = Vec::new();
        assert(all.skip(all.len() as int).reverse() =~= views(reversed@));
        assert(all.take(all.len() as int) =~= all);
        while left.len() > 0
            invariant
                left.len() <= all.len(),
                views(left@) =~= all.take(left.len() as int),
                views(reversed@) =~= all.skip(left.len() as int).reverse(),
            decreases left.len(),
        {
            let ghost n: int = left.len() as int;
            let ghost was: Seq<ServerView> = views(left@);
            let ghost done: Seq<ServerView> = views(reversed@);
            if let Some(server) = left.pop() {
                assert(was[n - 1] == server@);
                reversed.push(server);
                assert(views(left@) =~= was.drop_last());
                assert(views(reversed@) =~= done.push(all[n - 1]));
                assert(all.skip(n - 1).reverse() =~= all.skip(n).reverse().push(all[n - 1]));
            }
        }
        assert(all.skip(0) =~= all);
        let mut servers: Vec<ServerDefinition> = Vec::new();
        assert(views(servers@) =~= offered(all.take(0)));
        while reversed.len() > 0
            invariant
                reversed.len() <= all.len(),
                views(reversed@) =~= all.skip(all.len() - reversed.len()).reverse(),
                views(servers@) =~= offered(all.take(all.len() - reversed.len())),
            decreases reversed.len(),
        {
            let ghost k: int = all.len() - reversed.len();
            let ghost was: Seq<ServerView> = views(reversed@);
            let ghost before: Seq<ServerView> = views(servers@);
            if let Some(server) = reversed.pop() {
                proof {
                    assert(was.last() == all[k]);
                    assert(was.last() == server@);
                    assert(views(reversed@) =~= was.drop_last());
                    assert(was.drop_last() =~= all.skip(k + 1).reverse());
                    assert(all.take(k + 1).drop_last() =~= all.take(k));
                    assert(all.take(k + 1).last() == server@);
                }
                if !server.name.as_str().is_empty() {
                    let place: usize = Self::find(&servers, server.name.as_str());
                    let ghost view: ServerView = server@;
                    if place < servers.len() {
                        servers.set(place, server);
                        assert(views(servers@) =~= before.update(place as int, view));
                    } else {
                        servers.push(server);
                        assert(views(servers@) =~= before.push(view));
                    }
                }
            }
        }
        assert(all.take(all.len() as int) =~= all);
        ServerDefinitions { servers }
    }

    /// The servers that are offered out of what a document holds; see [`reads_as`].
    pub fn from_entries(entries: Option<Option<Vec<RawEntry>>>) -> (r: Result<
        ServerDefinitions,
        ServersError,
    >)
        ensures
            reads_as(entries_view(entries), r),
    {
        let items: Vec<RawEntry> = match entries {
            None => {
                let none: ServerDefinitions = ServerDefinitions { servers: Vec::new() };
                assert(none@ =~= Seq::<ServerView>::empty());
                return Ok(none);
            },
            Some(None) => {
                return Err(ServersError::Shape);
            },
            Some(Some(items)) => items,
        };
        let ghost seen: Seq<RawView> = entries_view(entries)->0->0;
        let mut list: Vec<ServerDefinition> = Vec::new();
        let mut i: usize = 0;
        while i < items.len()
            invariant
                i <= items.len(),
                seen == items@.map_values(|e: RawEntry| e@),
                entries_view(entries) == Some(Some(seen)),
                views(list@) =~= decoded_all(seen.take(i as int)),
                forall|j: int| 0 <= j < i ==> decoded(#[trigger] seen[j]) is Some,
            decreases items.len() - i,
        {
            let ghost before: Seq<ServerView> = views(list@);
            assert(seen[i as int] == items@[i as int]@);
            match decode(&items[i]) {
                Some(server) => {
                    let ghost view: ServerView = server@;
                    list.push(server);
                    assert(views(list@) =~= before.push(view));
                    assert(decoded_all(seen.take(i + 1)) =~= decoded_all(
                        seen.take(i as int),
                    ).push(view));
                },
                None => {
                    return Err(ServersError::Shape);
                },
            }
            i = i + 1;
        }
        assert(seen.take(seen.len() as int) =~= seen);
        Ok(ServerDefinitions::from_list(list))
    }

    /// The servers that are offered out of a TOML document with an array `server`. The text of an
    /// error is the same for each.
    pub fn parse(toml_text: &str) -> (r: Result<ServerDefinitions, ServersError>)
        ensures
            match toml_entries(toml_text@, "server"@, server_keys()) {
                None => r is Err && r->Err_0 is Syntax,
                Some(entries) => reads_as(entries, r),
            },
    {
        let mut keys: Vec<String> = Vec::new();
        keys.push("name".to_owned());
        keys.push("address".to_owned());
        keys.push("login_url".to_owned());
        keys.push("api_url".to_owned());
        assert(texts(keys@) =~= server_keys());
        match read_entries(toml_text, "server", &keys) {
            Ok(entries) => ServerDefinitions::from_entries(entries),
            Err(_) => Err(ServersError::Syntax),
        }
    }

    /// The servers that come with the launcher.
    pub fn load_default() -> (r: Result<ServerDefinitions, ServersError>)
        ensures
            match toml_entries(DEFAULT_SERVERS_TOML@, "server"@, server_keys()) {
                None => r is Err && r->Err_0 is Syntax,
                Some(entries) => reads_as(entries, r),
            },
    {
        ServerDefinitions::parse(DEFAULT_SERVERS_TOML)
    }

    /// The servers in their order.
    pub fn iter(&self) -> (r: std::slice::Iter<'_, ServerDefinition>)
        ensures
            views(r.remaining().unref()) == self@,
    {
        let r: std::slice::Iter<'_, ServerDefinition> = self.servers.iter();
        assert(r.remaining().unref() =~= self.servers@);
        r
    }

    /// The first server.
    pub fn first(&self) -> (r: Option<&ServerDefinition>)
        ensures
            match r {
                Some(server) => self@.len() > 0 && server@ == self@[0],
                None => self@.len() == 0,
            },
    {
        if self.servers.len() > 0 {
            Some(&self.servers[0])
        } else {
            None
        }
    }

    /// The server with the given name.
    pub fn get(&self, name: &str) -> (r: Option<&ServerDefinition>)
        ensures
            match r {
                Some(server) => place_of(self@, name@) < self@.len() && server@ == self@[place_of(
                    self@,
                    name@,
                )],
                None => place_of(self@, name@) == self@.len(),
            },
    {
        let place: usize = Self::find(&self.servers, name);
        if place < self.servers.len() {
            Some(&self.servers[place])
        } else {
            None
        }
    }

    pub fn is_empty(&self) -> (r: bool)
        ensures
            r == (self@.len() == 0),
    {
        self.servers.len() == 0
    }

    pub fn len(&self) -> (r: usize)
        ensures
            r == self@.len(),
    {
        self.servers.len()
    }
}

/// No two servers have the same name, so that [`ServerDefinitions::get`] finds the one that is
/// offered under it.
pub proof fn law_lookup_finds_the_offered_server(list: Seq<ServerView>, i: int)
    requires
        0 <= i < offered(list).len(),
    ensures
        place_of(offered(list), offered(list)[i].name) == i,
{
    let all = offered(list);
    law_names_are_distinct(list);
    lemma_place_of(all, all[i].name);
    let place = place_of(all, all[i].name);
    if place < i {
        assert(all[place].name == all[i].name);
    } else if place > i {
        assert(all[i].name == all[i].name);
    }
}

/// The table of the given texts, with or without the fourth key.
pub open spec fn table_of(
    name: Seq<char>,
    address: Seq<char>,
    login_url: Seq<char>,
    api_url: Option<Seq<char>>,
) -> RawView {
    RawView {
        table: Some(
            seq![
                Some(Some(name)),
                Some(Some(address)),
                Some(Some(login_url)),
                match api_url {
                    Some(text) => Some(Some(text)),
                    None => None,
                },
            ],
        ),
        row: None,
    }
}

/// A table with four texts is the server with those texts, each under the key of its name. Where
/// the fourth is missing, it is empty.
pub proof fn law_a_table_is_the_server_of_its_texts(server: ServerView)
    ensures
        server_keys() == seq!["name"@, "address"@, "login_url"@, "api_url"@],
        decoded(
            table_of(server.name, server.address, server.login_url, Some(server.api_url)),
        ) == Some(server),
        decoded(table_of(server.name, server.address, server.login_url, None)) == Some(
            ServerView {
                name: server.name,
                address: server.address,
                login_url: server.login_url,
                api_url: Seq::empty(),
            },
        ),
{
}

/// A table gives a server exactly where its first three keys hold texts and the fourth holds a
/// text or is missing; each field of the server is then the value of its key.
pub proof fn law_what_a_table_gives(entry: RawView, fields: Seq<Option<Option<Seq<char>>>>)
    requires
        entry.table == Some(fields),
        fields.len() == 4,
    ensures
        decoded(entry) is Some <==> {
            &&& fields[0] is Some && fields[0]->0 is Some
            &&& fields[1] is Some && fields[1]->0 is Some
            &&& fields[2] is Some && fields[2]->0 is Some
            &&& fields[3] is Some ==> fields[3]->0 is Some
        },
        decoded(entry) is Some ==> {
            &&& fields[0] == Some(Some(decoded(entry)->0.name))
            &&& fields[1] == Some(Some(decoded(entry)->0.address))
            &&& fields[2] == Some(Some(decoded(entry)->0.login_url))
            &&& fields[3] is Some ==> fields[3] == Some(Some(decoded(entry)->0.api_url))
            &&& fields[3] is None ==> decoded(entry)->0.api_url.len() == 0
        },
{
}

/// A row gives a server exactly where it begins with three texts, and with a fourth where it goes
/// on; these are the texts of the server, in that order.
pub proof fn law_what_a_row_gives(entry: RawView, cells: Seq<Option<Seq<char>>>)
    requires
        entry.table is None,
        entry.row == Some(cells),
    ensures
        decoded(entry) is Some <==> {
            &&& cells.len() >= 3
            &&& cells[0] is Some && cells[1] is Some && cells[2] is Some
            &&& cells.len() > 3 ==> cells[3] is Some
        },
        decoded(entry) is Some ==> {
            &&& cells[0] == Some(decoded(entry)->0.name)
            &&& cells[1] == Some(decoded(entry)->0.address)
            &&& cells[2] == Some(decoded(entry)->0.login_url)
            &&& cells.len() > 3 ==> cells[3] == Some(decoded(entry)->0.api_url)
            &&& cells.len() == 3 ==> decoded(entry)->0.api_url.len() == 0
        },
{
}

/// What is neither a table nor an array gives no server.
pub proof fn law_other_values_give_no_server(entry: RawView)
    requires
        entry.table is None,
        entry.row is None,
    ensures
        decoded(entry) is None,
{
}

/// A server that is offered stands in the file, and nothing with its name comes behind it there.
pub proof fn law_offered_servers_are_from_the_file(list: Seq<ServerView>, i: int) -> (k: int)
    requires
        0 <= i < offered(list).len(),
    ensures
        0 <= k < list.len(),
        list[k] == offered(list)[i],
        forall|j: int| k < j < list.len() ==> (#[trigger] list[j]).name != list[k].name,
    decreases list.len(),
{
    let front = list.drop_last();
    let before = offered(front);
    let server = list.last();
    let place = place_of(before, server.name);
    lemma_place_of(before, server.name);
    law_names_are_distinct(front);
    let now = offered(list);
    let end = list.len() - 1;
    assert(list[end] == server);
    if server.name.len() > 0 && (i == place || i == before.len()) {
        assert(now[i] == server);
        end
    } else {
        assert(now[i] == before[i]);
        let k = law_offered_servers_are_from_the_file(front, i);
        assert(list[k] == front[k]);
        assert forall|j: int| k < j < list.len() implies (#[trigger] list[j]).name
            != list[k].name by {
            if j < end {
                assert(list[j] == front[j]);
            } else if server.name == list[k].name {
                assert(before[i].name == server.name);
                if place < before.len() {
                    assert(before[place].name == before[i].name);
                }
            }
        }
        k
    }
}

/// Of two servers with different names, the one whose name comes first in the file is offered
/// first.
pub proof fn law_who_is_named_first_is_offered_first(
    list: Seq<ServerView>,
    k: int,
    l: int,
    i: int,
    j: int,
)
    requires
        0 <= k < l < list.len(),
        forall|m: int| 0 <= m < l ==> (#[trigger] list[m]).name != list[l].name,
        0 <= i < offered(list).len(),
        0 <= j < offered(list).len(),
        offered(list)[i].name == list[k].name,
        offered(list)[j].name == list[l].name,
    ensures
        i < j,
    decreases list.len(),
{
    let front = list.drop_last();
    let before = offered(front);
    let server = list.last();
    let place = place_of(before, server.name);
    lemma_place_of(before, server.name);
    law_names_are_distinct(list);
    law_names_are_distinct(front);
    let now = offered(list);
    assert(list[k].name != list[l].name);
    if l == list.len() - 1 {
        if place < before.len() {
            let m = law_offered_servers_are_from_the_file(front, place);
            assert(front[m] == list[m]);
        }
        assert(now[before.len() as int].name == list[l].name);
        assert(j == before.len());
        assert(i != j);
    } else {
        assert(front[k] == list[k] && front[l] == list[l]);
        assert forall|m: int| 0 <= m < l implies (#[trigger] front[m]).name != front[l].name by {
            assert(front[m] == list[m]);
        }
        let a = lemma_named_servers_are_offered(front, k);
        let b = lemma_named_servers_are_offered(front, l);
        assert(now[a].name == before[a].name);
        assert(now[b].name == before[b].name);
        assert(a == i && b == j);
        law_who_is_named_first_is_offered_first(front, k, l, a, b);
    }
}

proof fn lemma_named_servers_are_offered(list: Seq<ServerView>, k: int) -> (i: int)
    requires
        0 <= k < list.len(),
        list[k].name.len() > 0,
    ensures
        0 <= i < offered(list).len(),
        offered(list)[i].name == list[k].name,
    decreases list.len(),
{
    let front = list.drop_last();
    let before = offered(front);
    let server = list.last();
    let place = place_of(before, server.name);
    lemma_place_of(before, server.name);
    if k == list.len() - 1 {
        place
    } else {
        assert(front[k] == list[k]);
        let i = lemma_named_servers_are_offered(front, k);
        assert(offered(list)[i].name == before[i].name);
        i
    }
}

/// A file with one table for each of some servers of different names gives just those servers.
pub proof fn law_what_is_listed_is_read(
    servers: Seq<ServerView>,
    items: Seq<RawView>,
    r: Result<ServerDefinitions, ServersError>,
)
    requires
        items.len() == servers.len(),
        forall|i: int|
            0 <= i < servers.len() ==> #[trigger] items[i] == table_of(
                servers[i].name,
                servers[i].address,
                servers[i].login_url,
                Some(servers[i].api_url),
            ),
        forall|i: int| 0 <= i < servers.len() ==> (#[trigger] servers[i]).name.len() > 0,
        forall|i: int, j: int|
            #![trigger servers[i], servers[j]]
            0 <= i < j < servers.len() ==> servers[i].name != servers[j].name,
        reads_as(Some(Some(items)), r),
    ensures
        r is Ok,
        r->Ok_0@ == servers,
{
    assert forall|i: int| 0 <= i < items.len() implies decoded(#[trigger] items[i]) == Some(
        servers[i],
    ) by {
        law_a_table_is_the_server_of_its_texts(servers[i]);
    }
    assert(decoded_all(items) =~= servers);
    lemma_distinct_servers_are_offered(servers);
}

proof fn lemma_distinct_servers_are_offered(servers: Seq<ServerView>)
    requires
        forall|i: int| 0 <= i < servers.len() ==> (#[trigger] servers[i]).name.len() > 0,
        forall|i: int, j: int|
            #![trigger servers[i], servers[j]]
            0 <= i < j < servers.len() ==> servers[i].name != servers[j].name,
    ensures
        offered(servers) == servers,
    decreases servers.len(),
{
    if servers.len() > 0 {
        let front = servers.drop_last();
        assert forall|i: int| 0 <= i < front.len() implies (#[trigger] front[i]).name.len() > 0 by {
            assert(front[i] == servers[i]);
        }
        assert forall|i: int, j: int|
            #![trigger front[i], front[j]]
            0 <= i < j < front.len() implies front[i].name != front[j].name by {
            assert(front[i] == servers[i] && front[j] == servers[j]);
        }
        lemma_distinct_servers_are_offered(front);
        lemma_place_of(front, servers.last().name);
        let place = place_of(front, servers.last().name);
        if place < front.len() {
            assert(servers[place] == front[place]);
            assert(servers[servers.len() - 1] == servers.last());
        }
        assert(offered(servers) =~= servers);
    } else {
        assert(offered(servers) =~= servers);
    }
}

/// One element that gives no server spoils the list, and a value that is no array does; a file
/// without the key lists nothing.
pub proof fn law_a_bad_element_spoils_the_list(
    items: Seq<RawView>,
    i: int,
    bad: Result<ServerDefinitions, ServersError>,
    other: Result<ServerDefinitions, ServersError>,
    none: Result<ServerDefinitions, ServersError>,
)
    requires
        0 <= i < items.len(),
        decoded(items[i]) is None,
        reads_as(Some(Some(items)), bad),
        reads_as(Some(None), other),
        reads_as(None, none),
    ensures
        bad is Err,
        other is Err,
        none is Ok && none->Ok_0@.len() == 0,
{
}

/// The texts of a server are those of its fields, and those of a list are those of its servers.
pub proof fn law_what_a_view_shows(server: ServerDefinition, list: Seq<ServerDefinition>, i: int)
    ensures
        server@.name == server.name@,
        server@.address == server.address@,
        server@.login_url == server.login_url@,
        server@.api_url == server.api_url@,
        views(list).len() == list.len(),
        0 <= i < list.len() ==> views(list)[i] == list[i]@,
        names_of(views(list)).len() == list.len(),
        0 <= i < list.len() ==> names_of(views(list))[i] == list[i].name@,
{
}

/// The texts of what a document holds are those of its elements, key by key and cell by cell.
pub proof fn law_what_an_element_shows(
    items: Vec<RawEntry>,
    entry: RawEntry,
    fields: Vec<Option<Option<String>>>,
    cells: Vec<Option<String>>,
    text: String,
    i: int,
)
    ensures
        entries_view(None) is None,
        entries_view(Some(None)) == Some(None::<Seq<RawView>>),
        entries_view(Some(Some(items))) is Some && entries_view(Some(Some(items)))->0 is Some,
        entries_view(Some(Some(items)))->0->0.len() == items@.len(),
        0 <= i < items@.len() ==> entries_view(Some(Some(items)))->0->0[i] == items@[i]@,
        entry.table is None ==> entry@.table is None,
        entry.row is None ==> entry@.row is None,
        entry.table == Some(fields) && 0 <= i < fields@.len() ==> entry@.table is Some
            && entry@.table->0.len() == fields@.len() && entry@.table->0[i] == field_view(
            fields@[i],
        ),
        entry.row == Some(cells) && 0 <= i < cells@.len() ==> entry@.row is Some
            && entry@.row->0.len() == cells@.len() && entry@.row->0[i] == crate::text::text_of(
            cells@[i],
        ),
        field_view(Some(Some(text))) == Some(Some(text@)),
        field_view(Some(None)) == Some(None::<Seq<char>>),
        field_view(None) is None,
{
}

} // verus!
