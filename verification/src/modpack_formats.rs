//! Reading the descriptions that the three modpack formats carry.

use vstd::prelude::*;

use crate::json::Json;
use crate::modpack::{cfg_value, first_value, ModpackFile, ModpackInfo, ParsedModpack};
use crate::text::{chars_of, concat2, contains, contains_text, lines_of, owned_text, same_text};

verus! {

/// The mathematical content of a `ModpackFile`.
pub struct FileView {
    pub url: Seq<char>,
    pub path: Seq<char>,
    pub size: Option<u64>,
    pub sha1: Option<Seq<char>>,
}

impl View for ModpackFile {
    type V = FileView;

    open spec fn view(&self) -> FileView {
        FileView {
            url: self.url@,
            path: self.path@,
            size: self.size,
            sha1: self.sha1.deep_view(),
        }
    }
}

/// The mathematical content of a `ModpackInfo`.
pub struct InfoView {
    pub name: Seq<char>,
    pub minecraft_version: Option<Seq<char>>,
    pub mod_loader: Option<Seq<char>>,
    pub mod_loader_version: Option<Seq<char>>,
    pub modpack_type: Seq<char>,
    pub instance_id: Option<Seq<char>>,
}

impl View for ModpackInfo {
    type V = InfoView;

    open spec fn view(&self) -> InfoView {
        InfoView {
            name: self.name@,
            minecraft_version: self.minecraft_version.deep_view(),
            mod_loader: self.mod_loader.deep_view(),
            mod_loader_version: self.mod_loader_version.deep_view(),
            modpack_type: self.modpack_type@,
            instance_id: self.instance_id.deep_view(),
        }
    }
}

/// The mathematical content of a `ParsedModpack`.
pub struct PackView {
    pub info: InfoView,
    pub files: Seq<FileView>,
    pub override_prefixes: Seq<Seq<char>>,
}

impl View for ParsedModpack {
    type V = PackView;

    open spec fn view(&self) -> PackView {
        PackView {
            info: self.info@,
            files: self.files@.map_values(|f: ModpackFile| f@),
            override_prefixes: self.override_prefixes.deep_view(),
        }
    }
}

/// A mod loader and its version.
pub struct LoaderView {
    pub name: Option<Seq<char>>,
    pub version: Option<Seq<char>>,
}

/// The loader that the dependencies of a Modrinth pack name: the first of
/// Fabric, Forge, Quilt and NeoForge (under either of its two names) that
/// has a version.
pub open spec fn modrinth_loader_of(deps: Json) -> LoaderView {
    if deps.field("fabric-loader"@).text() is Some {
        LoaderView { name: Some("fabric"@), version: deps.field("fabric-loader"@).text() }
    } else if deps.field("forge"@).text() is Some {
        LoaderView { name: Some("forge"@), version: deps.field("forge"@).text() }
    } else if deps.field("quilt-loader"@).text() is Some {
        LoaderView { name: Some("quilt"@), version: deps.field("quilt-loader"@).text() }
    } else if deps.field("neoforge"@).text() is Some {
        LoaderView { name: Some("neoforge"@), version: deps.field("neoforge"@).text() }
    } else if deps.field("neo-forge"@).text() is Some {
        LoaderView { name: Some("neoforge"@), version: deps.field("neo-forge"@).text() }
    } else {
        LoaderView { name: None, version: None }
    }
}

/// The loader named under `key`, if it has a version.
fn loader_under(deps: &Json, key: &str, name: &str) -> (found: Option<(String, String)>)
    ensures
        match found {
            Some(pair) => deps.field(key@).text() == Some(pair.1@) && pair.0@ == name@,
            None => deps.field(key@).text() is None,
        },
{
    match deps.get(key).as_str() {
        Some(version) => Some((name.to_string(), version.to_string())),
        None => None,
    }
}

/// The loader that the dependencies of a Modrinth pack name, and its
/// version.
pub fn parse_modrinth_loader(deps: &Json) -> (loader: (Option<String>, Option<String>))
    ensures
        (LoaderView { name: loader.0.deep_view(), version: loader.1.deep_view() })
            == modrinth_loader_of(*deps),
{
    let found = match loader_under(deps, "fabric-loader", "fabric") {
        Some(pair) => Some(pair),
        None => match loader_under(deps, "forge", "forge") {
            Some(pair) => Some(pair),
            None => match loader_under(deps, "quilt-loader", "quilt") {
                Some(pair) => Some(pair),
                None => match loader_under(deps, "neoforge", "neoforge") {
                    Some(pair) => Some(pair),
                    None => loader_under(deps, "neo-forge", "neoforge"),
                },
            },
        },
    };
    match found {
        Some(pair) => (Some(pair.0), Some(pair.1)),
        None => (None, None),
    }
}

/// The file that an entry of a Modrinth pack describes. An entry gives
/// none if the client does not support it, if it has no path or a path
/// with `..` in it, or if it has no address to download from.
pub open spec fn modrinth_file_of(entry: Json) -> Option<FileView> {
    let path = entry.field("path"@).text();
    let downloads = entry.field("downloads"@).items();
    if entry.field("env"@).field("client"@).text() == Some("unsupported"@) {
        None
    } else if path is None || contains_text(path->0, ".."@) {
        None
    } else if downloads is None || downloads->0.len() == 0 || downloads->0[0].text() is None {
        None
    } else {
        Some(
            FileView {
                url: downloads->0[0].text()->0,
                path: path->0,
                size: entry.field("fileSize"@).number(),
                sha1: entry.field("hashes"@).field("sha1"@).text(),
            },
        )
    }
}

/// The file that an entry of a Modrinth pack describes.
pub fn modrinth_file(entry: &Json) -> (file: Option<ModpackFile>)
    ensures
        match file {
            Some(f) => modrinth_file_of(*entry) == Some(f@),
            None => modrinth_file_of(*entry) is None,
        },
{
    match entry.get("env").get("client").as_str() {
        Some(support) => {
            if same_text(support, "unsupported") {
                return None;
            }
        },
        None => {},
    }
    let path = match entry.get("path").as_str() {
        Some(p) => p,
        None => {
            return None;
        },
    };
    if contains(chars_of(path).as_slice(), chars_of("..").as_slice()) {
        return None;
    }
    let downloads = match entry.get("downloads").as_array() {
        Some(list) => list,
        None => {
            return None;
        },
    };
    if downloads.len() == 0 {
        return None;
    }
    let url = match downloads[0].as_str() {
        Some(u) => u,
        None => {
            return None;
        },
    };
    Some(
        ModpackFile {
            path: path.to_string(),
            url: url.to_string(),
            size: entry.get("fileSize").as_u64(),
            sha1: owned_text(entry.get("hashes").get("sha1").as_str()),
        },
    )
}

/// The items of a list, or none for a value that is no list.
pub open spec fn items_or_none(value: Json) -> Seq<Json> {
    match value.items() {
        Some(items) => items,
        None => Seq::empty(),
    }
}

/// The text of a value, or `fallback` for a value that is no text.
pub open spec fn text_or(value: Json, fallback: Seq<char>) -> Seq<char> {
    match value.text() {
        Some(t) => t,
        None => fallback,
    }
}

/// What the index of a Modrinth pack describes.
pub open spec fn modrinth_pack_of(index: Json) -> PackView {
    let loader = modrinth_loader_of(index.field("dependencies"@));
    PackView {
        info: InfoView {
            name: text_or(index.field("name"@), "Modrinth Modpack"@),
            minecraft_version: index.field("dependencies"@).field("minecraft"@).text(),
            mod_loader: loader.name,
            mod_loader_version: loader.version,
            modpack_type: "modrinth"@,
            instance_id: None,
        },
        files: items_or_none(index.field("files"@)).filter_map(|e: Json| modrinth_file_of(e)),
        override_prefixes: seq!["client-overrides/"@, "overrides/"@],
    }
}

/// Reads the index of a Modrinth pack: its name, the game version and the
/// mod loader it depends on, the files to download, and the two
/// directories of overrides.
pub fn parse_modrinth(index: &Json) -> (pack: ParsedModpack)
    ensures
        pack@ == modrinth_pack_of(*index),
{
    let deps = index.get("dependencies");
    let (mod_loader, mod_loader_version) = parse_modrinth_loader(deps);
    let mut files: Vec<ModpackFile> = Vec::new();
    let ghost pick = |e: Json| modrinth_file_of(e);
    match index.get("files").as_array() {
        Some(entries) => {
            let mut i: usize = 0;
            assert(entries@.take(0).filter_map(pick) =~= Seq::<FileView>::empty());
            while i < entries.len()
                invariant
                    i <= entries@.len(),
                    pick == |e: Json| modrinth_file_of(e),
                    files@.map_values(|f: ModpackFile| f@) == entries@.take(i as int).filter_map(pick),
                decreases entries@.len() - i,
            {
                proof {
                    assert(entries@.take(i + 1).drop_last() =~= entries@.take(i as int));
                    assert(entries@.take(i + 1).last() == entries@[i as int]);
                }
                match modrinth_file(&entries[i]) {
                    Some(file) => {
                        let ghost prior = files@.map_values(|f: ModpackFile| f@);
                        files.push(file);
                        assert(files@.map_values(|f: ModpackFile| f@) =~= prior + seq![file@]);
                    },
                    None => {},
                }
                i += 1;
            }
            assert(entries@.take(entries@.len() as int) =~= entries@);
        },
        None => {
            assert(files@.map_values(|f: ModpackFile| f@) =~= Seq::<Json>::empty().filter_map(pick));
        },
    }
    let name = match index.get("name").as_str() {
        Some(n) => n.to_string(),
        None => "Modrinth Modpack".to_string(),
    };
    let mut override_prefixes: Vec<String> = Vec::new();
    override_prefixes.push("client-overrides/".to_string());
    override_prefixes.push("overrides/".to_string());
    assert(override_prefixes.deep_view() =~= seq!["client-overrides/"@, "overrides/"@]);
    ParsedModpack {
        info: ModpackInfo {
            name,
            minecraft_version: owned_text(deps.get("minecraft").as_str()),
            mod_loader,
            mod_loader_version,
            modpack_type: "modrinth".to_string(),
            instance_id: None,
        },
        files,
        override_prefixes,
    }
}

/// The versions and the loader that the components of a MultiMC pack
/// name.
pub struct ComponentsView {
    pub minecraft: Option<Seq<char>>,
    pub loader: Option<Seq<char>>,
    pub loader_version: Option<Seq<char>>,
}

/// What is known after one more component: the game's own component sets
/// the game version, the component of a mod loader sets the loader and its
/// version, and any other changes nothing.
pub open spec fn after_component(known: ComponentsView, component: Json) -> ComponentsView {
    let version = component.field("version"@).text();
    let uid = text_or(component.field("uid"@), Seq::empty());
    if uid == "net.minecraft"@ {
        ComponentsView { minecraft: version, ..known }
    } else if uid == "net.minecraftforge"@ {
        ComponentsView { loader: Some("forge"@), loader_version: version, ..known }
    } else if uid == "net.neoforged"@ {
        ComponentsView { loader: Some("neoforge"@), loader_version: version, ..known }
    } else if uid == "net.fabricmc.fabric-loader"@ {
        ComponentsView { loader: Some("fabric"@), loader_version: version, ..known }
    } else if uid == "org.quiltmc.quilt-loader"@ {
        ComponentsView { loader: Some("quilt"@), loader_version: version, ..known }
    } else if uid == "com.mumfrey.liteloader"@ {
        ComponentsView { loader: Some("liteloader"@), loader_version: version, ..known }
    } else {
        known
    }
}

/// What is known after the components, taken in order.
pub open spec fn after_components(components: Seq<Json>) -> ComponentsView
    decreases components.len(),
{
    if components.len() == 0 {
        ComponentsView { minecraft: None, loader: None, loader_version: None }
    } else {
        after_component(after_components(components.drop_last()), components.last())
    }
}

/// The game version, the mod loader and its version that the components
/// of a MultiMC pack name. Of several components that set the same thing
/// the last decides.
pub fn parse_mmc_components(json: &Json) -> (found: (Option<String>, Option<String>, Option<String>))
    ensures
        (ComponentsView {
            minecraft: found.0.deep_view(),
            loader: found.1.deep_view(),
            loader_version: found.2.deep_view(),
        }) == after_components(items_or_none(json.field("components"@))),
{
    let mut mc: Option<String> = None;
    let mut loader: Option<String> = None;
    let mut loader_ver: Option<String> = None;
    let components = match json.get("components").as_array() {
        Some(list) => list,
        None => {
            return (mc, loader, loader_ver);
        },
    };
    let mut i: usize = 0;
    assert(components@.take(0) =~= Seq::<Json>::empty());
    while i < components.len()
        invariant
            i <= components@.len(),
            (ComponentsView {
                minecraft: mc.deep_view(),
                loader: loader.deep_view(),
                loader_version: loader_ver.deep_view(),
            }) == after_components(components@.take(i as int)),
        decreases components@.len() - i,
    {
        proof {
            assert(components@.take(i + 1).drop_last() =~= components@.take(i as int));
            assert(components@.take(i + 1).last() == components@[i as int]);
        }
        let c = &components[i];
        let ver = owned_text(c.get("version").as_str());
        let uid = match c.get("uid").as_str() {
            Some(u) => u,
            None => "",
        };
        proof {
            reveal_strlit("");
            assert(uid@ =~= text_or(c.field("uid"@), Seq::empty()));
        }
        if same_text(uid, "net.minecraft") {
            mc = ver;
        } else if same_text(uid, "net.minecraftforge") {
            loader = Some("forge".to_string());
            loader_ver = ver;
        } else if same_text(uid, "net.neoforged") {
            loader = Some("neoforge".to_string());
            loader_ver = ver;
        } else if same_text(uid, "net.fabricmc.fabric-loader") {
            loader = Some("fabric".to_string());
            loader_ver = ver;
        } else if same_text(uid, "org.quiltmc.quilt-loader") {
            loader = Some("quilt".to_string());
            loader_ver = ver;
        } else if same_text(uid, "com.mumfrey.liteloader") {
            loader = Some("liteloader".to_string());
            loader_ver = ver;
        }
        i += 1;
    }
    assert(components@.take(components@.len() as int) =~= components@);
    (mc, loader, loader_ver)
}

/// What a MultiMC pack describes, from the text of its `instance.cfg`,
/// the directory `root` it lies in, and its list of components if it has
/// one.
pub open spec fn multimc_pack_of(cfg: Seq<char>, root: Seq<char>, components: Option<Json>) -> PackView {
    let known = match components {
        Some(json) => after_components(items_or_none(json.field("components"@))),
        None => ComponentsView { minecraft: None, loader: None, loader_version: None },
    };
    PackView {
        info: InfoView {
            name: match first_value(lines_of(cfg), "name"@ + "="@) {
                Some(n) => n,
                None => "MultiMC Modpack"@,
            },
            minecraft_version: match known.minecraft {
                Some(v) => Some(v),
                None => first_value(lines_of(cfg), "IntendedVersion"@ + "="@),
            },
            mod_loader: known.loader,
            mod_loader_version: known.loader_version,
            modpack_type: "multimc"@,
            instance_id: None,
        },
        files: Seq::empty(),
        override_prefixes: seq![root + ".minecraft/"@, root + "minecraft/"@],
    }
}

/// Reads a MultiMC pack: its name from `instance.cfg`, the game version
/// and the mod loader from its components, or the game version from
/// `instance.cfg` where the components name none, and the two directories
/// of its game files.
pub fn parse_multimc(cfg: &str, root: &str, components: Option<&Json>) -> (pack: ParsedModpack)
    ensures
        pack@ == multimc_pack_of(
            cfg@,
            root@,
            match components {
                Some(json) => Some(*json),
                None => None,
            },
        ),
{
    let name = match cfg_value(cfg, "name") {
        Some(n) => n,
        None => "MultiMC Modpack".to_string(),
    };
    let (mc, loader, loader_ver) = match components {
        Some(json) => parse_mmc_components(json),
        None => (None, None, None),
    };
    let mc = match mc {
        Some(v) => Some(v),
        None => cfg_value(cfg, "IntendedVersion"),
    };
    let mut override_prefixes: Vec<String> = Vec::new();
    override_prefixes.push(concat2(root, ".minecraft/"));
    override_prefixes.push(concat2(root, "minecraft/"));
    assert(override_prefixes.deep_view() =~= seq![root@ + ".minecraft/"@, root@ + "minecraft/"@]);
    let files: Vec<ModpackFile> = Vec::new();
    assert(files@.map_values(|f: ModpackFile| f@) =~= Seq::<FileView>::empty());
    ParsedModpack {
        info: ModpackInfo {
            name,
            minecraft_version: mc,
            mod_loader: loader,
            mod_loader_version: loader_ver,
            modpack_type: "multimc".to_string(),
            instance_id: None,
        },
        files,
        override_prefixes,
    }
}

} // verus!
