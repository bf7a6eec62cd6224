use vstd::prelude::*;
use vstd::string::StringExecFns;
use crate::text::{
    concat, has_prefix, lines_of, remove_all, remove_all_text, split_lines,
    starts_with, trim_text, trimmed,
};

verus! {

/// One dimension of a world and the bytes it takes.
#[derive(Debug)]
pub struct Dimension {
    /// Display name (Overworld, Nether, The End).
    pub name: String,
    /// Internal id (overworld, nether, end).
    pub id: String,
    pub size_bytes: u64,
}

/// The world of a server: its dimensions and their total size.
#[derive(Debug)]
pub struct WorldGroup {
    pub level_name: String,
    pub dimensions: Vec<Dimension>,
    pub total_size: u64,
    pub exists: bool,
    pub path_debug: String,
}

/// The world's name from the lines of `server.properties`: the value of the
/// first trimmed line that starts with `level-name=`, else "world".
pub open spec fn level_name_in(lines: Seq<Seq<char>>) -> Seq<char>
    decreases lines.len(),
{
    if lines.len() == 0 {
        "world"@
    } else if has_prefix(trimmed(lines[0]), "level-name="@) {
        trimmed(remove_all(trimmed(lines[0]), "level-name="@))
    } else {
        level_name_in(lines.drop_first())
    }
}

/// The world's name, given the content of `server.properties` (`None` when
/// it is missing or unreadable).
pub fn level_name(content: &Option<String>) -> (r: String)
    ensures
        content is Some ==> r@ == level_name_in(lines_of(content->Some_0@)),
        content is None ==> r@ == "world"@,
{
    proof {
        reveal_strlit("level-name=");
    }
    match content {
        None => String::from_str("world"),
        Some(c) => {
            let lines = split_lines(c.as_str());
            let ghost ls = lines@.map_values(|l: String| l@);
            let mut i: usize = 0;
            assert(ls.skip(0) =~= ls);
            while i < lines.len()
                invariant
                    content is Some && content->Some_0@ == c@,
                    i <= lines@.len(),
                    ls == lines@.map_values(|l: String| l@),
                    ls == lines_of(c@),
                    level_name_in(ls) == level_name_in(ls.skip(i as int)),
                decreases lines@.len() - i,
            {
                assert(ls.skip(i as int).drop_first() =~= ls.skip(i + 1));
                assert(ls.skip(i as int)[0] == lines@[i as int]@);
                let text = trim_text(lines[i].as_str());
                if starts_with(text.as_str(), "level-name=") {
                    proof {
                        reveal_strlit("level-name=");
                    }
                    let value = remove_all_text(text.as_str(), "level-name=");
                    assert(ls.skip(i as int).len() > 0);
                    assert(level_name_in(ls.skip(i as int)) == trimmed(remove_all(text@, "level-name="@)));
                    return trim_text(value.as_str());
                }
                i = i + 1;
            }
            assert(ls.skip(i as int).len() == 0);
            String::from_str("world")
        },
    }
}

/// The folders where a world may lie, under the server's directory:
/// `worlds/<name>` (Bedrock), `<name>` (Java), and the `worlds` folder itself.
pub struct WorldCandidates {
    pub bedrock: String,
    pub java: String,
    pub worlds_dir: String,
}

/// Which of the candidate folders are directories.
pub struct WorldDirFacts {
    pub bedrock_is_dir: bool,
    pub java_is_dir: bool,
    pub worlds_is_dir: bool,
}

/// The folder of the main world: an existing Bedrock world, else an existing
/// Java world, else a new one inside an existing `worlds` folder, else a new
/// one at the root.
pub fn resolve_world_path(candidates: &WorldCandidates, facts: &WorldDirFacts) -> (r: String)
    ensures
        r == if facts.bedrock_is_dir || (!facts.java_is_dir && facts.worlds_is_dir) {
            candidates.bedrock
        } else {
            candidates.java
        },
{
    if facts.bedrock_is_dir {
        candidates.bedrock.clone()
    } else if facts.java_is_dir {
        candidates.java.clone()
    } else if facts.worlds_is_dir {
        candidates.bedrock.clone()
    } else {
        candidates.java.clone()
    }
}

/// The names of the Nether and End folders that Paper keeps at the server's root.
pub fn paper_dimension_names(level: &str) -> (r: (String, String))
    ensures
        r.0@ == level@ + "_nether"@,
        r.1@ == level@ + "_the_end"@,
{
    (concat(level, "_nether"), concat(level, "_the_end"))
}

/// The folder that holds one dimension: "overworld" is the main world,
/// "nether" and "end" are Paper's root folders; any other name is refused.
pub fn dimension_folder(dimension: &str, overworld: String, paper: (String, String)) -> (r: Result<
    String,
    String,
>)
    ensures
        dimension@ == "overworld"@ ==> r == Ok::<String, String>(overworld),
        dimension@ == "nether"@ ==> r == Ok::<String, String>(paper.0),
        dimension@ == "end"@ ==> r == Ok::<String, String>(paper.1),
        dimension@ != "overworld"@ && dimension@ != "nether"@ && dimension@ != "end"@ ==> r is Err
            && r->Err_0@ == "Unknown dimension: "@ + dimension@,
{
    proof {
        reveal_strlit("overworld");
        reveal_strlit("nether");
        reveal_strlit("end");
        assert("overworld"@.len() == 9 && "nether"@.len() == 6 && "end"@.len() == 3);
        assert("nether"@ != "overworld"@);
        assert("end"@ != "overworld"@ && "end"@ != "nether"@);
    }
    let d = String::from_str(dimension);
    if d == String::from_str("overworld") {
        Ok(overworld)
    } else if d == String::from_str("nether") {
        Ok(paper.0)
    } else if d == String::from_str("end") {
        Ok(paper.1)
    } else {
        Err(concat("Unknown dimension: ", dimension))
    }
}

/// `a + b`, capped at `u64::MAX`.
pub open spec fn sum_capped(a: u64, b: u64) -> u64 {
    if a as int + b as int > u64::MAX { u64::MAX } else { (a + b) as u64 }
}

fn add_capped(a: u64, b: u64) -> (r: u64)
    ensures
        r == sum_capped(a, b),
{
    if a > u64::MAX - b { u64::MAX } else { a + b }
}

/// The sizes found on disk for a world: `None` where a folder does not exist.
pub struct WorldSizes {
    pub overworld: Option<u64>,
    pub vanilla_nether: Option<u64>,
    pub vanilla_end: Option<u64>,
    pub paper_nether: Option<u64>,
    pub paper_end: Option<u64>,
}

/// One dimension, as display name, id and size.
pub open spec fn dim(d: Dimension) -> (Seq<char>, Seq<char>, u64) {
    (d.name@, d.id@, d.size_bytes)
}

/// The dimensions listed for the sizes found: the overworld and the vanilla
/// dimensions inside it (only when it exists), then Paper's root dimensions.
pub open spec fn listed_dimensions(s: WorldSizes) -> Seq<(Seq<char>, Seq<char>, u64)> {
    let ow: Seq<(Seq<char>, Seq<char>, u64)> = match s.overworld {
        Some(n) => seq![("Overworld"@, "overworld"@, n)] + match s.vanilla_nether {
            Some(v) => seq![("Nether (Vanilla)"@, "nether_vanilla"@, v)],
            None => Seq::empty(),
        } + match s.vanilla_end {
            Some(v) => seq![("The End (Vanilla)"@, "end_vanilla"@, v)],
            None => Seq::empty(),
        },
        None => Seq::empty(),
    };
    ow + match s.paper_nether {
        Some(v) => seq![("Nether"@, "nether"@, v)],
        None => Seq::empty(),
    } + match s.paper_end {
        Some(v) => seq![("The End"@, "end"@, v)],
        None => Seq::empty(),
    }
}

/// The size of an optional folder, zero when it is missing.
pub open spec fn size_or_zero(n: Option<u64>) -> u64 {
    match n {
        Some(v) => v,
        None => 0,
    }
}

/// The total size: the overworld (which holds the vanilla dimensions) and
/// Paper's root dimensions.
pub open spec fn world_total(s: WorldSizes) -> u64 {
    sum_capped(
        sum_capped(
            if s.overworld is Some { size_or_zero(s.overworld) } else { 0 },
            size_or_zero(s.paper_nether),
        ),
        size_or_zero(s.paper_end),
    )
}

fn push_dimension(dims: &mut Vec<Dimension>, name: &str, id: &str, size: u64)
    ensures
        final(dims)@.map_values(|d: Dimension| dim(d)) == old(dims)@.map_values(|d: Dimension| dim(d)).push(
            (name@, id@, size),
        ),
{
    let ghost before = dims@;
    dims.push(Dimension { name: String::from_str(name), id: String::from_str(id), size_bytes: size });
    assert(dims@.map_values(|d: Dimension| dim(d)) =~= before.map_values(|d: Dimension| dim(d)).push(
        (name@, id@, size),
    ));
}

/// The summary of a world from what was found on disk.
pub fn world_group(level_name: String, overworld_path: String, sizes: &WorldSizes) -> (r: WorldGroup)
    ensures
        r.level_name == level_name,
        r.path_debug == overworld_path,
        r.exists == (sizes.overworld is Some),
        r.dimensions@.map_values(|d: Dimension| dim(d)) == listed_dimensions(*sizes),
        r.total_size == world_total(*sizes),
{
    let mut dims: Vec<Dimension> = Vec::new();
    let mut total: u64 = 0;
    let ghost empty = dims@.map_values(|d: Dimension| dim(d));
    assert(empty =~= Seq::<(Seq<char>, Seq<char>, u64)>::empty());
    match sizes.overworld {
        Some(n) => {
            push_dimension(&mut dims, "Overworld", "overworld", n);
            total = n;
            match sizes.vanilla_nether {
                Some(v) => push_dimension(&mut dims, "Nether (Vanilla)", "nether_vanilla", v),
                None => {},
            }
            match sizes.vanilla_end {
                Some(v) => push_dimension(&mut dims, "The End (Vanilla)", "end_vanilla", v),
                None => {},
            }
        },
        None => {},
    }
    match sizes.paper_nether {
        Some(v) => {
            push_dimension(&mut dims, "Nether", "nether", v);
        },
        None => {},
    }
    total = add_capped(total, match sizes.paper_nether {
        Some(v) => v,
        None => 0,
    });
    match sizes.paper_end {
        Some(v) => {
            push_dimension(&mut dims, "The End", "end", v);
        },
        None => {},
    }
    total = add_capped(total, match sizes.paper_end {
        Some(v) => v,
        None => 0,
    });
    assert(dims@.map_values(|d: Dimension| dim(d)) =~= listed_dimensions(*sizes));
    WorldGroup {
        level_name,
        dimensions: dims,
        total_size: total,
        exists: sizes.overworld.is_some(),
        path_debug: overworld_path,
    }
}

/// The text of a boolean, as `bool::to_string` writes it.
pub open spec fn bool_text(b: bool) -> Seq<char> {
    if b { "true"@ } else { "false"@ }
}

fn bool_string(b: bool) -> (r: String)
    ensures
        r@ == bool_text(b),
{
    if b { String::from_str("true") } else { String::from_str("false") }
}

/// The settings a world is regenerated with, as `server.properties` updates.
pub fn world_settings(
    seed: String,
    level_type: String,
    generate_structures: bool,
    hardcore: bool,
    difficulty: String,
    spawn_animals: bool,
    spawn_monsters: bool,
    allow_nether: bool,
) -> (r: Vec<(String, String)>)
    ensures
        r@.map_values(|p: (String, String)| (p.0@, p.1@)) == seq![
            ("level-seed"@, seed@),
            ("level-type"@, level_type@),
            ("generate-structures"@, bool_text(generate_structures)),
            ("hardcore"@, bool_text(hardcore)),
            ("difficulty"@, difficulty@),
            ("spawn-animals"@, bool_text(spawn_animals)),
            ("spawn-monsters"@, bool_text(spawn_monsters)),
            ("allow-nether"@, bool_text(allow_nether)),
        ],
{
    let mut r: Vec<(String, String)> = Vec::new();
    r.push((String::from_str("level-seed"), seed));
    r.push((String::from_str("level-type"), level_type));
    r.push((String::from_str("generate-structures"), bool_string(generate_structures)));
    r.push((String::from_str("hardcore"), bool_string(hardcore)));
    r.push((String::from_str("difficulty"), difficulty));
    r.push((String::from_str("spawn-animals"), bool_string(spawn_animals)));
    r.push((String::from_str("spawn-monsters"), bool_string(spawn_monsters)));
    r.push((String::from_str("allow-nether"), bool_string(allow_nether)));
    assert(r@.map_values(|p: (String, String)| (p.0@, p.1@)) =~= seq![
        ("level-seed"@, seed@),
        ("level-type"@, level_type@),
        ("generate-structures"@, bool_text(generate_structures)),
        ("hardcore"@, bool_text(hardcore)),
        ("difficulty"@, difficulty@),
        ("spawn-animals"@, bool_text(spawn_animals)),
        ("spawn-monsters"@, bool_text(spawn_monsters)),
        ("allow-nether"@, bool_text(allow_nether)),
    ]);
    r
}

} // verus!
