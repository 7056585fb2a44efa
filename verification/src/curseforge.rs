//! CurseForge modpacks: what their description says, and what the
//! CurseForge service answers about their files.

use vstd::prelude::*;
use vstd::slice::slice_subrange;

use crate::json::Json;
use crate::modpack::{ModpackFile, ModpackInfo, ParsedModpack};
use crate::modpack_formats::{
    items_or_none, text_or, FileView, InfoView, LoaderView, PackView,
};
use crate::text::{
    chars_of, concat2, decimal, decimal_string, owned_text, parse_u64, parse_u64_spec, pieces_from,
    pieces_of, run_until, same_text, scan_until, starts_with, starts_with_text, string_of_range,
};

verus! {

/// The first of `loaders` that is marked as the primary one.
pub open spec fn first_primary(loaders: Seq<Json>) -> Option<Json>
    decreases loaders.len(),
{
    if loaders.len() == 0 {
        None
    } else if loaders[0].field("primary"@).flag() == Some(true) {
        Some(loaders[0])
    } else {
        first_primary(loaders.drop_first())
    }
}

/// The loader entry that counts: the first primary one, or the first of
/// all where none is primary.
pub open spec fn chosen_loader(loaders: Seq<Json>) -> Option<Json> {
    match first_primary(loaders) {
        Some(entry) => Some(entry),
        None => if loaders.len() > 0 {
            Some(loaders[0])
        } else {
            None
        },
    }
}

/// The loader and its version in an identifier of the form
/// `loader-version`, cut at the first hyphen.
pub open spec fn loader_of_id(id: Seq<char>) -> LoaderView {
    let cut = run_until(id, '-', 0) as int;
    if cut < id.len() {
        LoaderView {
            name: Some(id.subrange(0, cut)),
            version: Some(id.subrange(cut + 1, id.len() as int)),
        }
    } else {
        LoaderView { name: None, version: None }
    }
}

/// The loader that a CurseForge pack names.
pub open spec fn curseforge_loader_of(description: Json) -> LoaderView {
    match description.field("minecraft"@).field("modLoaders"@).items() {
        Some(loaders) => match chosen_loader(loaders) {
            Some(entry) => match entry.field("id"@).text() {
                Some(id) => loader_of_id(id),
                None => LoaderView { name: None, version: None },
            },
            None => LoaderView { name: None, version: None },
        },
        None => LoaderView { name: None, version: None },
    }
}

/// The address that stands for a file of a project until the service has
/// resolved it.
pub open spec fn placeholder_url(project: u64, file: u64) -> Seq<char> {
    "curseforge://"@ + decimal(project as nat) + ":"@ + decimal(file as nat)
}

/// The file that an entry of a CurseForge pack names, if it gives the
/// numbers of a project and of a file.
pub open spec fn curseforge_file_of(entry: Json) -> Option<FileView> {
    match (entry.field("projectID"@).number(), entry.field("fileID"@).number()) {
        (Some(project), Some(file)) => Some(
            FileView {
                url: placeholder_url(project, file),
                path: Seq::empty(),
                size: None,
                sha1: None,
            },
        ),
        _ => None,
    }
}

/// What the description of a CurseForge pack says. A description of
/// another type says nothing.
pub open spec fn curseforge_pack_of(description: Json) -> Option<PackView> {
    if description.field("manifestType"@).text() != Some("minecraftModpack"@) {
        None
    } else {
        let loader = curseforge_loader_of(description);
        Some(
            PackView {
                info: InfoView {
                    name: text_or(description.field("name"@), "CurseForge Modpack"@),
                    minecraft_version: description.field("minecraft"@).field("version"@).text(),
                    mod_loader: loader.name,
                    mod_loader_version: loader.version,
                    modpack_type: "curseforge"@,
                    instance_id: None,
                },
                files: items_or_none(description.field("files"@)).filter_map(
                    |e: Json| curseforge_file_of(e),
                ),
                override_prefixes: seq![
                    text_or(description.field("overrides"@), "overrides"@) + "/"@,
                ],
            },
        )
    }
}

/// The loader entry that counts.
fn choose_loader(loaders: &Vec<Json>) -> (entry: Option<&Json>)
    ensures
        match entry {
            Some(e) => chosen_loader(loaders@) == Some(*e),
            None => chosen_loader(loaders@) is None,
        },
{
    let mut i: usize = 0;
    assert(loaders@.skip(0) =~= loaders@);
    while i < loaders.len()
        invariant
            i <= loaders@.len(),
            first_primary(loaders@) == first_primary(loaders@.skip(i as int)),
        decreases loaders@.len() - i,
    {
        proof {
            assert(loaders@.skip(i as int)[0] == loaders@[i as int]);
            assert(loaders@.skip(i as int).drop_first() =~= loaders@.skip(i + 1));
        }
        match loaders[i].get("primary").as_bool() {
            Some(true) => {
                return Some(&loaders[i]);
            },
            _ => {},
        }
        i += 1;
    }
    if loaders.len() > 0 {
        Some(&loaders[0])
    } else {
        None
    }
}

/// The loader and its version in an identifier, cut at the first hyphen.
fn split_loader_id(id: &str) -> (loader: (Option<String>, Option<String>))
    ensures
        (LoaderView { name: loader.0.deep_view(), version: loader.1.deep_view() }) == loader_of_id(
            id@,
        ),
{
    let chars = chars_of(id);
    let s = chars.as_slice();
    let cut = scan_until(s, '-', 0);
    if cut < s.len() {
        (Some(string_of_range(s, 0, cut)), Some(string_of_range(s, cut + 1, s.len())))
    } else {
        (None, None)
    }
}

/// The loader that a CurseForge pack names.
fn curseforge_loader(description: &Json) -> (loader: (Option<String>, Option<String>))
    ensures
        (LoaderView { name: loader.0.deep_view(), version: loader.1.deep_view() })
            == curseforge_loader_of(*description),
{
    match description.get("minecraft").get("modLoaders").as_array() {
        Some(loaders) => match choose_loader(loaders) {
            Some(entry) => match entry.get("id").as_str() {
                Some(id) => split_loader_id(id),
                None => (None, None),
            },
            None => (None, None),
        },
        None => (None, None),
    }
}

/// The file that an entry of a CurseForge pack names.
fn curseforge_file(entry: &Json) -> (file: Option<ModpackFile>)
    ensures
        match file {
            Some(f) => curseforge_file_of(*entry) == Some(f@),
            None => curseforge_file_of(*entry) is None,
        },
{
    let project = match entry.get("projectID").as_u64() {
        Some(p) => p,
        None => {
            return None;
        },
    };
    let file = match entry.get("fileID").as_u64() {
        Some(f) => f,
        None => {
            return None;
        },
    };
    let mut url = concat2("curseforge://", decimal_string(project).as_str());
    url.append(":");
    url.append(decimal_string(file).as_str());
    Some(ModpackFile { url, path: String::new(), size: None, sha1: None })
}

/// Reads the description of a CurseForge pack: its name, the game version
/// and the mod loader, the files as project and file numbers still to be
/// resolved, and the directory of overrides. A description of another
/// type is refused.
pub fn parse_curseforge(description: &Json) -> (pack: Result<ParsedModpack, String>)
    ensures
        match pack {
            Ok(p) => curseforge_pack_of(*description) == Some(p@),
            Err(message) => curseforge_pack_of(*description) is None && message@
                == "not curseforge"@,
        },
{
    let is_pack = match description.get("manifestType").as_str() {
        Some(kind) => same_text(kind, "minecraftModpack"),
        None => false,
    };
    if !is_pack {
        return Err("not curseforge".to_string());
    }
    let (loader, loader_ver) = curseforge_loader(description);
    let mut files: Vec<ModpackFile> = Vec::new();
    let ghost pick = |e: Json| curseforge_file_of(e);
    match description.get("files").as_array() {
        Some(entries) => {
            let mut i: usize = 0;
            assert(entries@.take(0).filter_map(pick) =~= Seq::<FileView>::empty());
            while i < entries.len()
                invariant
                    i <= entries@.len(),
                    pick == |e: Json| curseforge_file_of(e),
                    files@.map_values(|f: ModpackFile| f@) == entries@.take(i as int).filter_map(pick),
                decreases entries@.len() - i,
            {
                proof {
                    assert(entries@.take(i + 1).drop_last() =~= entries@.take(i as int));
                    assert(entries@.take(i + 1).last() == entries@[i as int]);
                }
                match curseforge_file(&entries[i]) {
                    Some(file) => {
                        let ghost prior = files@.map_values(|f: ModpackFile| f@);
                        files.push(file);
                        assert(files@.map_values(|f: ModpackFile| f@) =~= prior + seq![file@]);
                    },
                    None => {},
                }
                i += 1;
            }
            assert(entries@.take(entries@.len() as int) =~= entries@);
        },
        None => {
            assert(files@.map_values(|f: ModpackFile| f@) =~= Seq::<Json>::empty().filter_map(pick));
        },
    }
    let overrides = match description.get("overrides").as_str() {
        Some(o) => o,
        None => "overrides",
    };
    let name = match description.get("name").as_str() {
        Some(n) => n.to_string(),
        None => "CurseForge Modpack".to_string(),
    };
    let mut override_prefixes: Vec<String> = Vec::new();
    override_prefixes.push(concat2(overrides, "/"));
    assert(override_prefixes.deep_view() =~= seq![
        text_or(description.field("overrides"@), "overrides"@) + "/"@,
    ]);
    Ok(
        ParsedModpack {
            info: ModpackInfo {
                name,
                minecraft_version: owned_text(description.get("minecraft").get("version").as_str()),
                mod_loader: loader,
                mod_loader_version: loader_ver,
                modpack_type: "curseforge".to_string(),
                instance_id: None,
            },
            files,
            override_prefixes,
        },
    )
}

/// The number of the file in a placeholder address
/// `curseforge://project:file`: what stands between the first and the
/// second colon behind the prefix, or behind the first colon to the end.
pub open spec fn file_id_of(url: Seq<char>) -> Option<u64> {
    let prefix = "curseforge://"@;
    if starts_with_text(url, prefix) {
        let rest = url.subrange(prefix.len() as int, url.len() as int);
        let parts = pieces_of(rest, ':');
        if parts.len() > 1 {
            parse_u64_spec(parts[1])
        } else {
            None
        }
    } else {
        None
    }
}

/// The number of the file in a placeholder address.
pub fn curseforge_file_id(url: &str) -> (id: Option<u64>)
    ensures
        id == file_id_of(url@),
{
    let chars = chars_of(url);
    let s = chars.as_slice();
    let prefix = chars_of("curseforge://");
    if !starts_with(s, prefix.as_slice()) {
        return None;
    }
    let rest = slice_subrange(s, prefix.len(), s.len());
    let first_end = scan_until(rest, ':', 0);
    if first_end >= rest.len() {
        return None;
    }
    let second_end = scan_until(rest, ':', first_end + 1);
    let second = slice_subrange(rest, first_end + 1, second_end);
    proof {
        let tail = pieces_from(rest@, ':', first_end + 1);
        assert(tail[0] == second@);
        assert(pieces_of(rest@, ':')[1] == tail[0]);
    }
    parse_u64(second)
}

/// The numbers of the files that a pack names, in order.
pub fn curseforge_file_ids(files: &Vec<ModpackFile>) -> (ids: Vec<u64>)
    ensures
        ids@ == files@.filter_map(|f: ModpackFile| file_id_of(f.url@)),
{
    let ghost pick = |f: ModpackFile| file_id_of(f.url@);
    let mut ids: Vec<u64> = Vec::new();
    let mut i: usize = 0;
    assert(files@.take(0).filter_map(pick) =~= Seq::<u64>::empty());
    while i < files.len()
        invariant
            i <= files@.len(),
            pick == |f: ModpackFile| file_id_of(f.url@),
            ids@ == files@.take(i as int).filter_map(pick),
        decreases files@.len() - i,
    {
        proof {
            assert(files@.take(i + 1).drop_last() =~= files@.take(i as int));
            assert(files@.take(i + 1).last() == files@[i as int]);
        }
        match curseforge_file_id(files[i].url.as_str()) {
            Some(id) => {
                let ghost prior = ids@;
                ids.push(id);
                assert(ids@ =~= prior + seq![id]);
            },
            None => {},
        }
        i += 1;
    }
    assert(files@.take(files@.len() as int) =~= files@);
    ids
}

/// The class of a mod, as the service gives it.
#[derive(Clone, Copy, Debug, PartialEq, Eq, Structural)]
pub struct ModClass {
    pub mod_id: u64,
    pub class_id: u64,
}

/// The class that the last entry for `mod_id` gives.
pub open spec fn class_of(classes: Seq<ModClass>, mod_id: u64) -> Option<u64>
    decreases classes.len(),
{
    if classes.len() == 0 {
        None
    } else if classes.last().mod_id == mod_id {
        Some(classes.last().class_id)
    } else {
        class_of(classes.drop_last(), mod_id)
    }
}

/// The class that the last entry for `mod_id` gives.
pub fn find_class(classes: &Vec<ModClass>, mod_id: u64) -> (class: Option<u64>)
    ensures
        class == class_of(classes@, mod_id),
{
    let mut i: usize = classes.len();
    assert(classes@.take(i as int) =~= classes@);
    while i > 0
        invariant
            i <= classes@.len(),
            class_of(classes@, mod_id) == class_of(classes@.take(i as int), mod_id),
        decreases i,
    {
        proof {
            assert(classes@.take(i as int).last() == classes@[i - 1]);
            assert(classes@.take(i as int).drop_last() =~= classes@.take(i - 1));
        }
        if classes[i - 1].mod_id == mod_id {
            return Some(classes[i - 1].class_id);
        }
        i -= 1;
    }
    None
}

/// The directory for the files of a class of mods: resource packs and
/// shader packs have their own, everything else goes to the mods.
pub open spec fn directory_of(class: Option<u64>) -> Seq<char> {
    if class == Some(12u64) {
        "resourcepacks"@
    } else if class == Some(6552u64) {
        "shaderpacks"@
    } else {
        "mods"@
    }
}

/// The address of a file on the content network, for a file whose
/// description gives none.
pub open spec fn cdn_url(id: u64, name: Seq<char>) -> Seq<char> {
    "https://edge.forgecdn.net/files/"@ + decimal((id / 1000) as nat) + "/"@ + decimal(
        (id % 1000) as nat,
    ) + "/"@ + name
}

/// The file to download that the service's description of a file gives,
/// with the classes of the mods known. A description without a file name
/// or number gives none.
pub open spec fn resolved_file_of(description: Json, classes: Seq<ModClass>) -> Option<FileView> {
    match (description.field("fileName"@).text(), description.field("id"@).number()) {
        (Some(name), Some(id)) => Some(
            FileView {
                url: match description.field("downloadUrl"@).text() {
                    Some(url) => url,
                    None => cdn_url(id, name),
                },
                path: directory_of(
                    match description.field("modId"@).number() {
                        Some(mod_id) => class_of(classes, mod_id),
                        None => None,
                    },
                ) + "/"@ + name,
                size: description.field("fileLength"@).number(),
                sha1: None,
            },
        ),
        _ => None,
    }
}

/// The file to download that the service's description of a file gives.
pub fn resolved_file(description: &Json, classes: &Vec<ModClass>) -> (file: Option<ModpackFile>)
    ensures
        match file {
            Some(f) => resolved_file_of(*description, classes@) == Some(f@),
            None => resolved_file_of(*description, classes@) is None,
        },
{
    let name = match description.get("fileName").as_str() {
        Some(n) => n,
        None => {
            return None;
        },
    };
    let id = match description.get("id").as_u64() {
        Some(i) => i,
        None => {
            return None;
        },
    };
    let url = match description.get("downloadUrl").as_str() {
        Some(u) => u.to_string(),
        None => {
            let mut u = concat2("https://edge.forgecdn.net/files/", decimal_string(id / 1000).as_str());
            u.append("/");
            u.append(decimal_string(id % 1000).as_str());
            u.append("/");
            u.append(name);
            u
        },
    };
    let class = match description.get("modId").as_u64() {
        Some(mod_id) => find_class(classes, mod_id),
        None => None,
    };
    let dir = match class {
        Some(12) => "resourcepacks",
        Some(6552) => "shaderpacks",
        _ => "mods",
    };
    let mut path = concat2(dir, "/");
    path.append(name);
    Some(ModpackFile { url, path, size: description.get("fileLength").as_u64(), sha1: None })
}

/// The files to download that the service's answer describes, in its
/// order.
pub fn resolved_files(answer: &Json, classes: &Vec<ModClass>) -> (files: Vec<ModpackFile>)
    ensures
        files@.map_values(|f: ModpackFile| f@) == items_or_none(answer.field("data"@)).filter_map(
            |d: Json| resolved_file_of(d, classes@),
        ),
{
    let ghost pick = |d: Json| resolved_file_of(d, classes@);
    let mut files: Vec<ModpackFile> = Vec::new();
    match answer.get("data").as_array() {
        Some(entries) => {
            let mut i: usize = 0;
            assert(entries@.take(0).filter_map(pick) =~= Seq::<FileView>::empty());
            while i < entries.len()
                invariant
                    i <= entries@.len(),
                    pick == |d: Json| resolved_file_of(d, classes@),
                    files@.map_values(|f: ModpackFile| f@) == entries@.take(i as int).filter_map(pick),
                decreases entries@.len() - i,
            {
                proof {
                    assert(entries@.take(i + 1).drop_last() =~= entries@.take(i as int));
                    assert(entries@.take(i + 1).last() == entries@[i as int]);
                }
                match resolved_file(&entries[i], classes) {
                    Some(file) => {
                        let ghost prior = files@.map_values(|f: ModpackFile| f@);
                        files.push(file);
                        assert(files@.map_values(|f: ModpackFile| f@) =~= prior + seq![file@]);
                    },
                    None => {},
                }
                i += 1;
            }
            assert(entries@.take(entries@.len() as int) =~= entries@);
        },
        None => {
            assert(files@.map_values(|f: ModpackFile| f@) =~= Seq::<Json>::empty().filter_map(pick));
        },
    }
    files
}

/// The class that the service's description of a mod gives, if it gives
/// the numbers of the mod and of its class.
pub open spec fn mod_class_of(description: Json) -> Option<ModClass> {
    match (description.field("id"@).number(), description.field("classId"@).number()) {
        (Some(mod_id), Some(class_id)) => Some(ModClass { mod_id, class_id }),
        _ => None,
    }
}

/// The classes of the mods that the service's answer describes, in its
/// order.
pub fn mod_classes(answer: &Json) -> (classes: Vec<ModClass>)
    ensures
        classes@ == items_or_none(answer.field("data"@)).filter_map(|d: Json| mod_class_of(d)),
{
    let ghost pick = |d: Json| mod_class_of(d);
    let mut classes: Vec<ModClass> = Vec::new();
    match answer.get("data").as_array() {
        Some(entries) => {
            let mut i: usize = 0;
            assert(entries@.take(0).filter_map(pick) =~= Seq::<ModClass>::empty());
            while i < entries.len()
                invariant
                    i <= entries@.len(),
                    pick == |d: Json| mod_class_of(d),
                    classes@ == entries@.take(i as int).filter_map(pick),
                decreases entries@.len() - i,
            {
                proof {
                    assert(entries@.take(i + 1).drop_last() =~= entries@.take(i as int));
                    assert(entries@.take(i + 1).last() == entries@[i as int]);
                }
                let entry = &entries[i];
                match (entry.get("id").as_u64(), entry.get("classId").as_u64()) {
                    (Some(mod_id), Some(class_id)) => {
                        let ghost prior = classes@;
                        classes.push(ModClass { mod_id, class_id });
                        assert(classes@ =~= prior + seq![ModClass { mod_id, class_id }]);
                    },
                    _ => {},
                }
                i += 1;
            }
            assert(entries@.take(entries@.len() as int) =~= entries@);
        },
        None => {
            assert(classes@ =~= Seq::<Json>::empty().filter_map(pick));
        },
    }
    classes
}

/// The numbers of the mods that the service's answer on files names, each
/// once, in the order of their first occurrence.
pub open spec fn distinct_mod_ids_of(entries: Seq<Json>) -> Seq<u64>
    decreases entries.len(),
{
    if entries.len() == 0 {
        Seq::empty()
    } else {
        let rest = distinct_mod_ids_of(entries.drop_last());
        match entries.last().field("modId"@).number() {
            Some(id) if !rest.contains(id) => rest.push(id),
            _ => rest,
        }
    }
}

/// The numbers of the mods that the service's answer on files names, each
/// once.
pub fn distinct_mod_ids(answer: &Json) -> (ids: Vec<u64>)
    ensures
        ids@ == distinct_mod_ids_of(items_or_none(answer.field("data"@))),
{
    let mut ids: Vec<u64> = Vec::new();
    match answer.get("data").as_array() {
        Some(entries) => {
            let mut i: usize = 0;
            assert(entries@.take(0) =~= Seq::<Json>::empty());
            while i < entries.len()
                invariant
                    i <= entries@.len(),
                    ids@ == distinct_mod_ids_of(entries@.take(i as int)),
                decreases entries@.len() - i,
            {
                proof {
                    assert(entries@.take(i + 1).drop_last() =~= entries@.take(i as int));
                    assert(entries@.take(i + 1).last() == entries@[i as int]);
                }
                match entries[i].get("modId").as_u64() {
                    Some(id) => {
                        let mut seen = false;
                        let mut k: usize = 0;
                        while k < ids.len()
                            invariant
                                k <= ids@.len(),
                                seen == ids@.take(k as int).contains(id),
                            decreases ids@.len() - k,
                        {
                            proof {
                                let shorter = ids@.take(k as int);
                                let longer = ids@.take(k + 1);
                                assert(longer =~= shorter.push(ids@[k as int]));
                                if shorter.contains(id) {
                                    let w = choose|w: int| 0 <= w < shorter.len() && shorter[w] == id;
                                    assert(longer[w] == id);
                                }
                                if ids@[k as int] == id {
                                    assert(longer[k as int] == id);
                                }
                                if longer.contains(id) {
                                    let w = choose|w: int| 0 <= w < longer.len() && longer[w] == id;
                                    if w < k {
                                        assert(shorter[w] == id);
                                    }
                                }
                            }
                            if ids[k] == id {
                                seen = true;
                            }
                            k += 1;
                        }
                        assert(ids@.take(ids@.len() as int) =~= ids@);
                        if !seen {
                            ids.push(id);
                        }
                    },
                    None => {},
                }
                i += 1;
            }
            assert(entries@.take(entries@.len() as int) =~= entries@);
        },
        None => {},
    }
    ids
}

} // verus!
