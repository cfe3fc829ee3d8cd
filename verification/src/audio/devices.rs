//! Audio devices: the nodes that `pw-dump` reports, which of them are
//! sinks or sources, and the names the buttons show for them.
use vstd::prelude::*;
use crate::text::{contains, decimal, decimal_string, str_contains, str_eq, string_of};

verus! {

broadcast use vstd::string::group_string_axioms;

/// What the plugin reads of one PipeWire node in `pw-dump` output: its
/// numeric id and the string properties under `info.props`. A property
/// that is missing or not a string is `None`; so is an id that is missing
/// or not an unsigned integer.
#[derive(Clone, Debug)]
pub struct PwNode {
    pub id: Option<u64>,
    pub node_name: Option<String>,
    pub media_class: Option<String>,
    pub nick: Option<String>,
    pub description: Option<String>,
}

/// The characters of an optional string.
pub open spec fn opt_view(o: Option<String>) -> Option<Seq<char>> {
    match o {
        Some(s) => Some(s@),
        None => None,
    }
}

/// A PipeWire node as values.
pub struct PwNodeView {
    pub id: Option<u64>,
    pub node_name: Option<Seq<char>>,
    pub media_class: Option<Seq<char>>,
    pub nick: Option<Seq<char>>,
    pub description: Option<Seq<char>>,
}

impl View for PwNode {
    type V = PwNodeView;

    open spec fn view(&self) -> PwNodeView {
        PwNodeView {
            id: self.id,
            node_name: opt_view(self.node_name),
            media_class: opt_view(self.media_class),
            nick: opt_view(self.nick),
            description: opt_view(self.description),
        }
    }
}

/// The views of a sequence of nodes.
pub open spec fn nodes_view(v: Seq<PwNode>) -> Seq<PwNodeView> {
    v.map_values(|n: PwNode| n@)
}

/// The nodes that `serde_json` reads from a `pw-dump` text: `None` unless
/// the text is a JSON array.
pub uninterp spec fn pw_dump_nodes(text: Seq<char>) -> Option<Seq<PwNodeView>>;

/// Reads the nodes of a `pw-dump` JSON text with `serde_json::from_str`:
/// the result is named `pw_dump_nodes` of the text. For each element of
/// the top-level array it takes `id` (`Value::as_u64`) and the string
/// values (`Value::as_str`) of `node.name`, `media.class`, `node.nick` and
/// `node.description` under `info.props`; a text that is not JSON, or not
/// an array at the top, gives `None`.
#[verifier::external_body]
fn parse_pw_dump(text: &str) -> (r: Option<Vec<PwNode>>)
    ensures
        r is Some <==> pw_dump_nodes(text@) is Some,
        r matches Some(v) ==> pw_dump_nodes(text@) == Some(nodes_view(v@)),
{
    let value: serde_json::Value = serde_json::from_str(text).ok()?;
    Some(value.as_array()?.iter().map(|n| {
        let props = n.get("info").and_then(|i| i.get("props"));
        let prop = |k: &str| props.and_then(|p| p.get(k)?.as_str()).map(String::from);
        PwNode {
            id: n.get("id").and_then(|v| v.as_u64()),
            node_name: prop("node.name"),
            media_class: prop("media.class"),
            nick: prop("node.nick"),
            description: prop("node.description"),
        }
    }).collect())
}

/// The nodes of a `pw-dump` text, or `None` when it is not a JSON array.
pub fn pw_dump_nodes_of(text: &str) -> (r: Option<Vec<PwNode>>)
    ensures
        r is Some <==> pw_dump_nodes(text@) is Some,
        r matches Some(v) ==> pw_dump_nodes(text@) == Some(nodes_view(v@)),
{
    parse_pw_dump(text)
}

/// An audio device offered in the device list of a button.
#[derive(Clone, Debug)]
pub struct AudioDevice {
    pub id: String,
    pub name: String,
    pub description: String,
    pub kind: String,
}

/// An audio device as values.
pub struct AudioDeviceView {
    pub id: Seq<char>,
    pub name: Seq<char>,
    pub description: Seq<char>,
    pub kind: Seq<char>,
}

impl View for AudioDevice {
    type V = AudioDeviceView;

    open spec fn view(&self) -> AudioDeviceView {
        AudioDeviceView {
            id: self.id@,
            name: self.name@,
            description: self.description@,
            kind: self.kind@,
        }
    }
}

/// The views of a sequence of devices.
pub open spec fn devices_view(v: Seq<AudioDevice>) -> Seq<AudioDeviceView> {
    v.map_values(|d: AudioDevice| d@)
}

/// The media class a device list of `kind` is made of: sinks for
/// `"sinks"`, sources for anything else.
pub open spec fn media_class_for(kind: Seq<char>) -> Seq<char> {
    if kind == "sinks"@ {
        "Audio/Sink"@
    } else {
        "Audio/Source"@
    }
}

/// The value of an optional string, or `default`.
pub open spec fn or_default(o: Option<Seq<char>>, default: Seq<char>) -> Seq<char> {
    match o {
        Some(s) => s,
        None => default,
    }
}

/// The device a node stands for in a list of class `class`: only a node
/// with an id whose media class contains `class`. Its name is the nick
/// (`Unknown` without one) and its description the description (the name
/// without one).
pub open spec fn device_of_node(
    n: PwNodeView,
    class: Seq<char>,
    label: Seq<char>,
) -> Option<AudioDeviceView> {
    match (n.media_class, n.id) {
        (Some(c), Some(id)) => if contains(c, class) {
            let name = or_default(n.nick, "Unknown"@);
            Some(
                AudioDeviceView {
                    id: decimal(id as nat),
                    name: name,
                    description: or_default(n.description, name),
                    kind: label,
                },
            )
        } else {
            None
        },
        _ => None,
    }
}

/// The devices that the nodes stand for, in the order of the nodes.
pub open spec fn devices_from(
    nodes: Seq<PwNodeView>,
    class: Seq<char>,
    label: Seq<char>,
) -> Seq<AudioDeviceView>
    decreases nodes.len(),
{
    if nodes.len() == 0 {
        seq![]
    } else {
        let rest = devices_from(nodes.drop_first(), class, label);
        match device_of_node(nodes[0], class, label) {
            Some(d) => seq![d] + rest,
            None => rest,
        }
    }
}

fn opt_string_eq(o: &Option<String>, s: &str) -> (r: bool)
    ensures
        r == (opt_view(*o) == Some(s@)),
{
    match o {
        Some(v) => str_eq(v.as_str(), s),
        None => false,
    }
}

fn opt_or(o: &Option<String>, default: &str) -> (r: String)
    ensures
        r@ == or_default(opt_view(*o), default@),
{
    match o {
        Some(v) => v.clone(),
        None => string_of(default),
    }
}

/// The device that `node` stands for in a list of media class `class`.
fn device_from_node(node: &PwNode, class: &str, label: &str) -> (r: Option<AudioDevice>)
    ensures
        r matches Some(d) ==> device_of_node(node@, class@, label@) == Some(d@),
        r is None ==> device_of_node(node@, class@, label@) is None,
{
    match (&node.media_class, node.id) {
        (Some(c), Some(id)) => {
            if !str_contains(c.as_str(), class) {
                return None;
            }
            let name = opt_or(&node.nick, "Unknown");
            let description = opt_or(&node.description, name.as_str());
            let d = AudioDevice {
                id: decimal_string(id),
                name,
                description,
                kind: string_of(label),
            };
            Some(d)
        },
        _ => None,
    }
}

/// The audio devices among `nodes` for a list of `kind` (`"sinks"` for
/// sinks, anything else for sources), each labelled `label`.
pub fn devices_from_nodes(nodes: &Vec<PwNode>, kind: &str, label: &str) -> (r: Vec<AudioDevice>)
    ensures
        devices_view(r@) == devices_from(nodes_view(nodes@), media_class_for(kind@), label@),
{
    let class = if str_eq(kind, "sinks") { "Audio/Sink" } else { "Audio/Source" };
    let ghost cls = media_class_for(kind@);
    assert(class@ == cls);
    let ghost all = nodes_view(nodes@);
    let mut out: Vec<AudioDevice> = Vec::new();
    let n = nodes.len();
    let mut i: usize = 0;
    assert(all.skip(0) =~= all);
    assert(devices_view(out@) =~= Seq::<AudioDeviceView>::empty());
    while i < n
        invariant
            n == nodes.len(),
            i <= n,
            all == nodes_view(nodes@),
            class@ == cls,
            devices_from(all, cls, label@) == devices_view(out@) + devices_from(
                all.skip(i as int),
                cls,
                label@,
            ),
        decreases n - i,
    {
        let ghost rest = all.skip(i as int);
        assert(rest[0] == nodes@[i as int]@);
        assert(rest.drop_first() =~= all.skip(i + 1));
        let ghost before = out@;
        match device_from_node(&nodes[i], class, label) {
            Some(d) => {
                let ghost dv = d@;
                out.push(d);
                assert(devices_view(out@) =~= devices_view(before) + seq![dv]);
            },
            None => {},
        }
        i = i + 1;
    }
    assert(all.skip(n as int) =~= Seq::<PwNodeView>::empty());
    assert(devices_view(out@) + Seq::<AudioDeviceView>::empty() =~= devices_view(out@));
    out
}

/// The devices listed by a `pw-dump` text: none when the text is not a
/// JSON array.
pub open spec fn devices_of_dump(
    text: Seq<char>,
    kind: Seq<char>,
    label: Seq<char>,
) -> Seq<AudioDeviceView> {
    match pw_dump_nodes(text) {
        Some(nodes) => devices_from(nodes, media_class_for(kind), label),
        None => seq![],
    }
}

/// The sinks (`kind == "sinks"`) or sources (any other `kind`) that a
/// `pw-dump` text lists, each labelled `label`.
pub fn parse_devices(text: &str, kind: &str, label: &str) -> (r: Vec<AudioDevice>)
    ensures
        devices_view(r@) == devices_of_dump(text@, kind@, label@),
{
    match parse_pw_dump(text) {
        Some(nodes) => devices_from_nodes(&nodes, kind, label),
        None => {
            let out: Vec<AudioDevice> = Vec::new();
            assert(devices_view(out@) =~= Seq::<AudioDeviceView>::empty());
            out
        },
    }
}

/// The name shown for the default devices, `None` for any other id.
pub open spec fn default_device_name_spec(id: Seq<char>) -> Option<Seq<char>> {
    if id == "@DEFAULT_AUDIO_SOURCE@"@ {
        Some("Default Source"@)
    } else if id == "@DEFAULT_AUDIO_SINK@"@ {
        Some("Default Sink"@)
    } else {
        None
    }
}

/// The name shown for a default device alias, `None` for any other id.
pub fn default_device_name(device_id: &str) -> (r: Option<String>)
    ensures
        r matches Some(s) ==> default_device_name_spec(device_id@) == Some(s@),
        r is None ==> default_device_name_spec(device_id@) is None,
{
    if str_eq(device_id, "@DEFAULT_AUDIO_SOURCE@") {
        Some(string_of("Default Source"))
    } else if str_eq(device_id, "@DEFAULT_AUDIO_SINK@") {
        Some(string_of("Default Sink"))
    } else {
        None
    }
}

/// The description of the first device with id `id`, if any.
pub open spec fn description_of(devices: Seq<AudioDeviceView>, id: Seq<char>) -> Option<Seq<char>>
    decreases devices.len(),
{
    if devices.len() == 0 {
        None
    } else if devices[0].id == id {
        Some(devices[0].description)
    } else {
        description_of(devices.drop_first(), id)
    }
}

/// The name shown for a device: the alias name of a default device, else
/// the description of the first listed device with that id, else the id.
pub open spec fn device_name_spec(id: Seq<char>, devices: Seq<AudioDeviceView>) -> Seq<char> {
    match default_device_name_spec(id) {
        Some(n) => n,
        None => match description_of(devices, id) {
            Some(d) => d,
            None => id,
        },
    }
}

/// The name shown for `device_id`, given the listed devices (sources then
/// sinks), which matter only for an id that is no default alias.
pub fn get_device_name(device_id: &str, devices: &Vec<AudioDevice>) -> (r: String)
    ensures
        r@ == device_name_spec(device_id@, devices_view(devices@)),
{
    if let Some(n) = default_device_name(device_id) {
        return n;
    }
    let ghost all = devices_view(devices@);
    let n = devices.len();
    let mut i: usize = 0;
    assert(all.skip(0) =~= all);
    while i < n
        invariant
            n == devices.len(),
            i <= n,
            all == devices_view(devices@),
            default_device_name_spec(device_id@) is None,
            description_of(all, device_id@) == description_of(all.skip(i as int), device_id@),
        decreases n - i,
    {
        let ghost rest = all.skip(i as int);
        assert(rest[0] == devices@[i as int]@);
        assert(rest.drop_first() =~= all.skip(i + 1));
        if str_eq(devices[i].id.as_str(), device_id) {
            return devices[i].description.clone();
        }
        i = i + 1;
    }
    string_of(device_id)
}

/// How a device is named for a title. The default aliases are named by
/// what they stand for, whatever devices are listed:
/// `@DEFAULT_AUDIO_SOURCE@` is "Default Source" and `@DEFAULT_AUDIO_SINK@`
/// is "Default Sink". Any other id is named by the description of the
/// first listed device with that id, and by itself when none is listed.
pub proof fn lemma_device_names(devices: Seq<AudioDeviceView>, id: Seq<char>, i: int)
    ensures
        device_name_spec("@DEFAULT_AUDIO_SOURCE@"@, devices) == "Default Source"@,
        device_name_spec("@DEFAULT_AUDIO_SINK@"@, devices) == "Default Sink"@,
        id != "@DEFAULT_AUDIO_SOURCE@"@ && id != "@DEFAULT_AUDIO_SINK@"@ && 0 <= i < devices.len()
            && devices[i].id == id && (forall|j: int| 0 <= j < i ==> devices[j].id != id)
            ==> device_name_spec(id, devices) == devices[i].description,
        id != "@DEFAULT_AUDIO_SOURCE@"@ && id != "@DEFAULT_AUDIO_SINK@"@ && (forall|j: int|
            0 <= j < devices.len() ==> devices[j].id != id) ==> device_name_spec(id, devices) == id,
{
    reveal_strlit("@DEFAULT_AUDIO_SOURCE@");
    reveal_strlit("@DEFAULT_AUDIO_SINK@");
    assert("@DEFAULT_AUDIO_SOURCE@"@.len() != "@DEFAULT_AUDIO_SINK@"@.len());
    lemma_description_first(devices, id, i);
}

proof fn lemma_description_first(devices: Seq<AudioDeviceView>, id: Seq<char>, i: int)
    ensures
        0 <= i < devices.len() && devices[i].id == id && (forall|j: int|
            0 <= j < i ==> devices[j].id != id) ==> description_of(devices, id) == Some(
            devices[i].description,
        ),
        (forall|j: int| 0 <= j < devices.len() ==> devices[j].id != id) ==> description_of(devices, id)
            is None,
    decreases devices.len(),
{
    if devices.len() > 0 {
        lemma_description_first(devices.drop_first(), id, i - 1);
        if 0 <= i < devices.len() && devices[i].id == id && (forall|j: int|
            0 <= j < i ==> devices[j].id != id) {
            if i > 0 {
                assert(devices[0].id != id);
                assert forall|j: int| 0 <= j < i - 1 implies devices.drop_first()[j].id != id by {
                    assert(devices.drop_first()[j] == devices[j + 1]);
                }
                assert(devices.drop_first()[i - 1] == devices[i]);
            }
        }
        if forall|j: int| 0 <= j < devices.len() ==> devices[j].id != id {
            assert(devices[0].id != id);
            assert forall|j: int| 0 <= j < devices.len() - 1 implies devices.drop_first()[j].id != id by {
                assert(devices.drop_first()[j] == devices[j + 1]);
            }
        }
    }
}

} // verus!
