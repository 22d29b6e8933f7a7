use vstd::prelude::*;
use crate::actions::ActionStateBuilder;
use crate::coord::MapPoint;
use crate::index::TextureIndex;
use crate::shoot::{Weapon, WeaponConfiguration};

verus! {

/// What fills one cell of the map.
#[derive(Debug, Copy, Clone, PartialEq, Eq, Structural)]
pub enum Tile {
    /// A wall, with its texture.
    Solid(TextureIndex),
    /// A door or a pane: the texture seen inside, the texture of its frame, and
    /// how its animated state starts.
    Dynamic(TextureIndex, TextureIndex, ActionStateBuilder),
    /// Free space.
    Nothing,
}

impl Tile {
    pub open spec fn wf(&self) -> bool {
        match self {
            Tile::Dynamic(_, _, builder) => builder.wf(),
            _ => true,
        }
    }
}

/// A kind of enemy, drawn with one texture.
#[derive(Debug, Copy, Clone, PartialEq, Eq, Structural)]
pub struct EnemyType {
    texture: TextureIndex,
}

impl EnemyType {
    pub closed spec fn spec_texture(&self) -> TextureIndex {
        self.texture
    }

    pub fn new(texture: TextureIndex) -> (r: Self)
        ensures
            r.spec_texture() == texture,
    {
        Self { texture }
    }

    pub fn texture(&self) -> (r: TextureIndex)
        ensures
            r == self.spec_texture(),
    {
        self.texture
    }
}

/// The value last recorded for `c`, if any.
pub open spec fn last_entry<T>(entries: Seq<(char, T)>, c: char) -> Option<T>
    decreases entries.len(),
{
    if entries.len() == 0 {
        None
    } else if entries.last().0 == c {
        Some(entries.last().1)
    } else {
        last_entry(entries.drop_last(), c)
    }
}

fn find_last<T: Copy>(entries: &Vec<(char, T)>, c: char) -> (r: Option<T>)
    ensures
        r == last_entry(entries@, c),
{
    let mut i: usize = entries.len();
    assert(entries@.take(i as int) == entries@);
    while i > 0
        invariant
            i <= entries@.len(),
            last_entry(entries@, c) == last_entry(entries@.take(i as int), c),
        decreases i,
    {
        assert(entries@.take(i as int).drop_last() == entries@.take(i - 1));
        i = i - 1;
        if entries[i].0 == c {
            return Some(entries[i].1);
        }
    }
    None
}

/// How the characters of a map text are read: which tile each one stands
/// for, which mark an enemy, and which mark where the player starts.
#[derive(Debug, Clone)]
pub struct MapConfiguration {
    conf: Vec<(char, Tile)>,
    enemies: Vec<(char, EnemyType)>,
    spawn: Vec<char>,
    map_border_texture: TextureIndex,
    weapon: WeaponConfiguration,
}

impl MapConfiguration {
    pub closed spec fn spec_tiles(&self) -> Seq<(char, Tile)> {
        self.conf@
    }

    pub closed spec fn spec_enemies(&self) -> Seq<(char, EnemyType)> {
        self.enemies@
    }

    pub closed spec fn spec_spawns(&self) -> Seq<char> {
        self.spawn@
    }

    pub closed spec fn spec_border_texture(&self) -> TextureIndex {
        self.map_border_texture
    }

    pub closed spec fn spec_weapon(&self) -> WeaponConfiguration {
        self.weapon
    }

    pub open spec fn wf(&self) -> bool {
        forall|i: int| 0 <= i < self.spec_tiles().len() ==> (#[trigger] self.spec_tiles()[i]).1.wf()
    }

    pub open spec fn tile_for(&self, c: char) -> Option<Tile> {
        last_entry(self.spec_tiles(), c)
    }

    pub open spec fn enemy_for(&self, c: char) -> Option<EnemyType> {
        last_entry(self.spec_enemies(), c)
    }

    pub open spec fn is_spawn_char(&self, c: char) -> bool {
        self.spec_spawns().contains(c)
    }

    /// The tile that `c` puts on the map: free space under a player or an
    /// enemy mark, else the tile configured for it.
    pub open spec fn cell(&self, c: char) -> Option<Tile> {
        if self.is_spawn_char(c) || self.enemy_for(c) is Some {
            Some(Tile::Nothing)
        } else {
            self.tile_for(c)
        }
    }

    pub fn new(map_border_texture: TextureIndex, weapon: WeaponConfiguration) -> (r: Self)
        ensures
            r.wf(),
            r.spec_tiles().len() == 0,
            r.spec_enemies().len() == 0,
            r.spec_spawns().len() == 0,
            r.spec_border_texture() == map_border_texture,
            r.spec_weapon() == weapon,
    {
        Self {
            conf: Vec::new(),
            enemies: Vec::new(),
            spawn: Vec::new(),
            map_border_texture,
            weapon,
        }
    }

    /// Makes `c` stand for `conf`, in place of what it stood for before.
    pub fn add(&mut self, c: char, conf: Tile)
        requires
            old(self).wf(),
            conf.wf(),
        ensures
            final(self).wf(),
            final(self).spec_tiles() == old(self).spec_tiles().push((c, conf)),
            final(self).spec_enemies() == old(self).spec_enemies(),
            final(self).spec_spawns() == old(self).spec_spawns(),
            final(self).spec_border_texture() == old(self).spec_border_texture(),
            final(self).spec_weapon() == old(self).spec_weapon(),
    {
        self.conf.push((c, conf));
        assert forall|i: int| 0 <= i < self.spec_tiles().len() implies (
        #[trigger] self.spec_tiles()[i]).1.wf() by {
            if i < old(self).spec_tiles().len() {
                assert(self.spec_tiles()[i] == old(self).spec_tiles()[i]);
            }
        }
    }

    /// Makes `c` mark an enemy of kind `enemy`, in place of any earlier kind.
    pub fn add_enemy(&mut self, c: char, enemy: EnemyType)
        ensures
            final(self).spec_tiles() == old(self).spec_tiles(),
            final(self).spec_enemies() == old(self).spec_enemies().push((c, enemy)),
            final(self).spec_spawns() == old(self).spec_spawns(),
            final(self).spec_border_texture() == old(self).spec_border_texture(),
            final(self).spec_weapon() == old(self).spec_weapon(),
    {
        self.enemies.push((c, enemy));
    }

    /// Makes `c` mark where the player starts.
    pub fn add_spawn(&mut self, c: char)
        ensures
            final(self).spec_tiles() == old(self).spec_tiles(),
            final(self).spec_enemies() == old(self).spec_enemies(),
            final(self).spec_spawns() == old(self).spec_spawns().push(c),
            final(self).spec_border_texture() == old(self).spec_border_texture(),
            final(self).spec_weapon() == old(self).spec_weapon(),
    {
        self.spawn.push(c);
    }

    pub fn get(&self, c: char) -> (r: Option<Tile>)
        ensures
            r == self.tile_for(c),
    {
        find_last(&self.conf, c)
    }

    pub fn get_enemy(&self, c: char) -> (r: Option<EnemyType>)
        ensures
            r == self.enemy_for(c),
    {
        find_last(&self.enemies, c)
    }

    pub fn is_spawn(&self, c: char) -> (r: bool)
        ensures
            r == self.is_spawn_char(c),
    {
        let mut i: usize = 0;
        while i < self.spawn.len()
            invariant
                i <= self.spawn@.len(),
                forall|k: int| 0 <= k < i ==> self.spawn@[k] != c,
            decreases self.spawn@.len() - i,
        {
            if self.spawn[i] == c {
                return true;
            }
            i = i + 1;
        }
        false
    }

    pub fn map_border_texture(&self) -> (r: TextureIndex)
        ensures
            r == self.spec_border_texture(),
    {
        self.map_border_texture
    }

    pub fn weapon(&self) -> (r: WeaponConfiguration)
        ensures
            r == self.spec_weapon(),
    {
        self.weapon
    }

    /// The tile that `c` puts on the map, if `c` is known.
    pub fn cell_at(&self, c: char) -> (r: Option<Tile>)
        requires
            self.wf(),
        ensures
            r == self.cell(c),
            r matches Some(t) ==> t.wf(),
    {
        if self.is_spawn(c) || self.get_enemy(c).is_some() {
            Some(Tile::Nothing)
        } else {
            let r = self.get(c);
            proof {
                lemma_last_entry_wf(self.spec_tiles(), c);
            }
            r
        }
    }
}

proof fn lemma_last_entry_wf(entries: Seq<(char, Tile)>, c: char)
    requires
        forall|i: int| 0 <= i < entries.len() ==> (#[trigger] entries[i]).1.wf(),
    ensures
        last_entry(entries, c) matches Some(t) ==> t.wf(),
    decreases entries.len(),
{
    if entries.len() > 0 {
        assert(entries.last() == entries[entries.len() - 1]);
        let rest = entries.drop_last();
        assert forall|i: int| 0 <= i < rest.len() implies (#[trigger] rest[i]).1.wf() by {
            assert(rest[i] == entries[i]);
        }
        lemma_last_entry_wf(rest, c);
    }
}

/// The lines of `s`, cut at each `'\n'`; there is always at least one.
pub open spec fn split_lines(s: Seq<char>) -> Seq<Seq<char>>
    decreases s.len(),
{
    if s.len() == 0 {
        seq![Seq::empty()]
    } else {
        let before = split_lines(s.drop_last());
        if s.last() == '\n' {
            before.push(Seq::empty())
        } else {
            before.update(before.len() - 1, before.last().push(s.last()))
        }
    }
}

proof fn lemma_split_lines_not_empty(s: Seq<char>)
    ensures
        split_lines(s).len() >= 1,
    decreases s.len(),
{
    if s.len() > 0 {
        lemma_split_lines_not_empty(s.drop_last());
    }
}

/// Each line as its characters.
pub open spec fn deep_chars(v: Seq<Vec<char>>) -> Seq<Seq<char>> {
    v.map_values(|l: Vec<char>| l@)
}

/// The lines of `text`, cut at each newline.
fn lines_of(text: &str) -> (r: Vec<Vec<char>>)
    ensures
        deep_chars(r@) == split_lines(text@),
{
    broadcast use vstd::string::axiom_spec_iter;
    let mut done: Vec<Vec<char>> = Vec::new();
    let mut current: Vec<char> = Vec::new();
    for c in it: text.chars()
        invariant
            it.seq() == text@,
            deep_chars(done@).push(current@) == split_lines(text@.take(it.index() as int)),
    {
        proof {
            let i = it.index() as int;
            assert(text@.take(i + 1).drop_last() == text@.take(i));
            lemma_split_lines_not_empty(text@.take(i));
        }
        if c == '\n' {
            let finished = current;
            current = Vec::new();
            done.push(finished);
        } else {
            current.push(c);
        }
        proof {
            assert(deep_chars(done@).push(current@) =~= split_lines(text@.take(it.index() as int + 1)));
        }
    }
    assert(text@.take(text@.len() as int) == text@);
    done.push(current);
    assert(deep_chars(done@) =~= split_lines(text@));
    done
}

/// Why a map text was refused.
#[derive(Debug, Copy, Clone, PartialEq, Eq, Structural)]
pub enum MapError {
    /// A character that the configuration does not know.
    UnknownChar,
    /// Lines that are not empty differ in length.
    InconsistentColumns,
    /// More lines or columns than a tile coordinate can address.
    TooLarge,
}

/// Whether some character of `lines` stands for nothing in `conf`.
pub open spec fn has_unknown_char(conf: MapConfiguration, lines: Seq<Seq<char>>) -> bool {
    exists|i: int, j: int|
        0 <= i < lines.len() && 0 <= j < lines[i].len() && (#[trigger] conf.cell(lines[i][j])) is None
}

/// Indices, in order, of the lines among the first `n` that are not empty:
/// those are the rows of the map.
pub open spec fn nonempty_indices(lines: Seq<Seq<char>>, n: int) -> Seq<int>
    decreases n,
{
    if n <= 0 {
        Seq::empty()
    } else if lines[n - 1].len() > 0 {
        nonempty_indices(lines, n - 1).push(n - 1)
    } else {
        nonempty_indices(lines, n - 1)
    }
}

/// The rows of the map, top first.
pub open spec fn map_rows(lines: Seq<Seq<char>>) -> Seq<int> {
    nonempty_indices(lines, lines.len() as int)
}

/// The number of columns: the length of the first row.
pub open spec fn grid_width(lines: Seq<Seq<char>>) -> int {
    if map_rows(lines).len() == 0 {
        0
    } else {
        lines[map_rows(lines)[0]].len() as int
    }
}

/// Whether every row has as many columns as the first.
pub open spec fn columns_consistent(lines: Seq<Seq<char>>) -> bool {
    forall|k: int|
        0 <= k < map_rows(lines).len() ==> #[trigger] lines[map_rows(lines)[k]].len() == grid_width(
            lines,
        )
}

/// Whether a tile coordinate cannot address every line or column.
pub open spec fn too_large(lines: Seq<Seq<char>>) -> bool {
    lines.len() > i16::MAX || grid_width(lines) > i16::MAX
}

/// The enemies marked on `row`, with their column and the line's height `y`.
pub open spec fn row_enemies(conf: MapConfiguration, row: Seq<char>, y: int) -> Seq<
    (EnemyType, int, int),
>
    decreases row.len(),
{
    if row.len() == 0 {
        Seq::empty()
    } else {
        let before = row_enemies(conf, row.drop_last(), y);
        let c = row.last();
        if !conf.is_spawn_char(c) && conf.enemy_for(c) is Some {
            before.push((conf.enemy_for(c).unwrap(), row.len() - 1, y))
        } else {
            before
        }
    }
}

/// The height of line `i`: the last line is at zero, the first on top.
pub open spec fn line_height(lines: Seq<Seq<char>>, i: int) -> int {
    lines.len() - 1 - i
}

/// The enemies marked on the first `n` lines, in reading order.
pub open spec fn map_enemies(conf: MapConfiguration, lines: Seq<Seq<char>>, n: int) -> Seq<
    (EnemyType, int, int),
>
    decreases n,
{
    if n <= 0 {
        Seq::empty()
    } else {
        map_enemies(conf, lines, n - 1) + row_enemies(conf, lines[n - 1], line_height(lines, n - 1))
    }
}

/// The last player mark on `row`, with its column and the height `y`.
pub open spec fn row_spawn(conf: MapConfiguration, row: Seq<char>, y: int) -> Option<
    (char, int, int),
>
    decreases row.len(),
{
    if row.len() == 0 {
        None
    } else if conf.is_spawn_char(row.last()) {
        Some((row.last(), row.len() - 1, y))
    } else {
        row_spawn(conf, row.drop_last(), y)
    }
}

/// The last player mark, in reading order, on the first `n` lines.
pub open spec fn map_spawn(conf: MapConfiguration, lines: Seq<Seq<char>>, n: int) -> Option<
    (char, int, int),
>
    decreases n,
{
    if n <= 0 {
        None
    } else {
        match row_spawn(conf, lines[n - 1], line_height(lines, n - 1)) {
            Some(found) => Some(found),
            None => map_spawn(conf, lines, n - 1),
        }
    }
}

/// Indices as integers.
pub open spec fn as_ints(v: Seq<usize>) -> Seq<int> {
    v.map_values(|i: usize| i as int)
}

fn all_chars_known(conf: &MapConfiguration, lines: &Vec<Vec<char>>) -> (r: bool)
    requires
        conf.wf(),
    ensures
        r == !has_unknown_char(*conf, deep_chars(lines@)),
{
    let ghost view = deep_chars(lines@);
    let mut i: usize = 0;
    while i < lines.len()
        invariant
            i <= lines@.len(),
            conf.wf(),
            view == deep_chars(lines@),
            view.len() == lines@.len(),
            forall|a: int, b: int|
                0 <= a < i && 0 <= b < view[a].len() ==> (#[trigger] conf.cell(view[a][b])) is Some,
        decreases lines@.len() - i,
    {
        let line = &lines[i];
        assert(view[i as int] == line@);
        let mut j: usize = 0;
        while j < line.len()
            invariant
                i < lines@.len(),
                conf.wf(),
                view == deep_chars(lines@),
                view.len() == lines@.len(),
                j <= line@.len(),
                view[i as int] == line@,
                forall|b: int| 0 <= b < j ==> (#[trigger] conf.cell(line@[b])) is Some,
            decreases line@.len() - j,
        {
            if conf.cell_at(line[j]).is_none() {
                assert(line@[j as int] == view[i as int][j as int]);
                assert(conf.cell(view[i as int][j as int]) is None);
                assert(has_unknown_char(*conf, view));
                return false;
            }
            j = j + 1;
        }
        i = i + 1;
    }
    true
}

fn row_indices(lines: &Vec<Vec<char>>) -> (r: Vec<usize>)
    ensures
        as_ints(r@) == map_rows(deep_chars(lines@)),
        r@.len() <= lines@.len(),
        forall|k: int| 0 <= k < r@.len() ==> #[trigger] r@[k] < lines@.len(),
{
    let ghost view = deep_chars(lines@);
    let mut rows: Vec<usize> = Vec::new();
    let mut i: usize = 0;
    while i < lines.len()
        invariant
            i <= lines@.len(),
            view == deep_chars(lines@),
            as_ints(rows@) == nonempty_indices(view, i as int),
            rows@.len() <= i,
            forall|k: int| 0 <= k < rows@.len() ==> #[trigger] rows@[k] < i,
        decreases lines@.len() - i,
    {
        assert(view[i as int] == lines@[i as int]@);
        if lines[i].len() > 0 {
            rows.push(i);
        }
        assert(as_ints(rows@) =~= nonempty_indices(view, i + 1));
        i = i + 1;
    }
    rows
}

/// The enemies of a map, with their tile coordinates as integers.
pub open spec fn placed(e: Seq<(EnemyType, MapPoint)>) -> Seq<(EnemyType, int, int)> {
    e.map_values(|p: (EnemyType, MapPoint)| (p.0, p.1.spec_x() as int, p.1.spec_y() as int))
}

/// The player mark of a map, with its tile coordinates as integers.
pub open spec fn placed_spawn(o: Option<(char, MapPoint)>) -> Option<(char, int, int)> {
    match o {
        Some(p) => Some((p.0, p.1.spec_x() as int, p.1.spec_y() as int)),
        None => None,
    }
}

fn collect_marks(conf: &MapConfiguration, lines: &Vec<Vec<char>>) -> (r: (
    Vec<(EnemyType, MapPoint)>,
    Option<(char, MapPoint)>,
))
    requires
        lines@.len() <= i16::MAX,
        forall|i: int| 0 <= i < lines@.len() ==> #[trigger] lines@[i]@.len() <= i16::MAX,
    ensures
        placed(r.0@) == map_enemies(*conf, deep_chars(lines@), lines@.len() as int),
        placed_spawn(r.1) == map_spawn(*conf, deep_chars(lines@), lines@.len() as int),
{
    let ghost view = deep_chars(lines@);
    let mut enemies: Vec<(EnemyType, MapPoint)> = Vec::new();
    let mut spawn: Option<(char, MapPoint)> = None;
    let mut i: usize = 0;
    while i < lines.len()
        invariant
            i <= lines@.len(),
            lines@.len() <= i16::MAX,
            forall|i: int| 0 <= i < lines@.len() ==> #[trigger] lines@[i]@.len() <= i16::MAX,
            view == deep_chars(lines@),
            view.len() == lines@.len(),
            placed(enemies@) == map_enemies(*conf, view, i as int),
            placed_spawn(spawn) == map_spawn(*conf, view, i as int),
        decreases lines@.len() - i,
    {
        let line = &lines[i];
        let y: i16 = (lines.len() - 1 - i) as i16;
        let ghost before_enemies = placed(enemies@);
        let ghost before_spawn = placed_spawn(spawn);
        assert(view[i as int] == line@);
        assert(line@.len() <= i16::MAX);
        let mut j: usize = 0;
        while j < line.len()
            invariant
                i < lines@.len(),
                j <= line@.len(),
                line@.len() <= i16::MAX,
                y == line_height(view, i as int),
                view.len() == lines@.len(),
                placed(enemies@) == before_enemies + row_enemies(
                    *conf,
                    line@.take(j as int),
                    y as int,
                ),
                placed_spawn(spawn) == match row_spawn(*conf, line@.take(j as int), y as int) {
                    Some(found) => Some(found),
                    None => before_spawn,
                },
            decreases line@.len() - j,
        {
            let c = line[j];
            let ghost prefix = line@.take(j as int + 1);
            assert(prefix.drop_last() == line@.take(j as int));
            assert(prefix.last() == c);
            if conf.is_spawn(c) {
                spawn = Some((c, MapPoint::new(j as i16, y)));
            } else {
                match conf.get_enemy(c) {
                    Some(enemy) => {
                        let ghost old_enemies = enemies@;
                        enemies.push((enemy, MapPoint::new(j as i16, y)));
                        assert(placed(enemies@) =~= placed(old_enemies).push(
                            (enemy, j as int, y as int),
                        ));
                    },
                    None => {},
                }
            }
            j = j + 1;
        }
        assert(line@.take(line@.len() as int) == line@);
        i = i + 1;
    }
    (enemies, spawn)
}

fn build_paving(
    conf: &MapConfiguration,
    lines: &Vec<Vec<char>>,
    rows: &Vec<usize>,
    width: usize,
) -> (r: Vec<Vec<Tile>>)
    requires
        conf.wf(),
        !has_unknown_char(*conf, deep_chars(lines@)),
        forall|k: int| 0 <= k < rows@.len() ==> #[trigger] rows@[k] < lines@.len(),
        forall|k: int| 0 <= k < rows@.len() ==> #[trigger] lines@[rows@[k] as int]@.len() == width,
    ensures
        r@.len() == width,
        forall|x: int| 0 <= x < width ==> #[trigger] r@[x]@.len() == rows@.len(),
        forall|x: int, y: int|
            0 <= x < width && 0 <= y < rows@.len() ==> {
                &&& Some(#[trigger] r@[x]@[y]) == conf.cell(
                    lines@[rows@[rows@.len() - 1 - y] as int]@[x],
                )
                &&& r@[x]@[y].wf()
            },
{
    let ghost view = deep_chars(lines@);
    let height = rows.len();
    let mut paving: Vec<Vec<Tile>> = Vec::new();
    let mut x: usize = 0;
    while x < width
        invariant
            x <= width,
            height == rows@.len(),
            conf.wf(),
            view == deep_chars(lines@),
            !has_unknown_char(*conf, view),
            forall|k: int| 0 <= k < rows@.len() ==> #[trigger] rows@[k] < lines@.len(),
            forall|k: int| 0 <= k < rows@.len() ==> #[trigger] lines@[rows@[k] as int]@.len() == width,
            paving@.len() == x,
            forall|a: int| 0 <= a < x ==> #[trigger] paving@[a]@.len() == height,
            forall|a: int, b: int|
                0 <= a < x && 0 <= b < height ==> {
                    &&& Some(#[trigger] paving@[a]@[b]) == conf.cell(
                        lines@[rows@[height - 1 - b] as int]@[a],
                    )
                    &&& paving@[a]@[b].wf()
                },
        decreases width - x,
    {
        let mut column: Vec<Tile> = Vec::new();
        let mut y: usize = 0;
        while y < height
            invariant
                x < width,
                y <= height,
                height == rows@.len(),
                conf.wf(),
                view == deep_chars(lines@),
                !has_unknown_char(*conf, view),
                forall|k: int| 0 <= k < rows@.len() ==> #[trigger] rows@[k] < lines@.len(),
                forall|k: int|
                    0 <= k < rows@.len() ==> #[trigger] lines@[rows@[k] as int]@.len() == width,
                column@.len() == y,
                forall|b: int|
                    0 <= b < y ==> {
                        &&& Some(#[trigger] column@[b]) == conf.cell(
                            lines@[rows@[height - 1 - b] as int]@[x as int],
                        )
                        &&& column@[b].wf()
                    },
            decreases height - y,
        {
            let row = rows[height - 1 - y];
            let c = lines[row][x];
            assert(view[row as int] == lines@[row as int]@);
            assert(conf.cell(view[row as int][x as int]) is Some);
            match conf.cell_at(c) {
                Some(tile) => column.push(tile),
                None => column.push(Tile::Nothing),
            }
            y = y + 1;
        }
        paving.push(column);
        x = x + 1;
    }
    paving
}

/// A level's tile grid, indexed `[x][y]` with `y = 0` on the last line of
/// the text, with its enemies, the player mark and the weapon.
#[derive(Debug)]
pub struct LevelMap {
    paving: Vec<Vec<Tile>>,
    border_texture: TextureIndex,
    enemies: Vec<(EnemyType, MapPoint)>,
    player: Option<(char, MapPoint)>,
    weapon: WeaponConfiguration,
    width: i16,
    height: i16,
}

impl LevelMap {
    pub closed spec fn spec_paving(&self) -> Seq<Seq<Tile>> {
        self.paving@.map_values(|column: Vec<Tile>| column@)
    }

    pub closed spec fn spec_width(&self) -> i16 {
        self.width
    }

    pub closed spec fn spec_height(&self) -> i16 {
        self.height
    }

    pub closed spec fn spec_border_texture(&self) -> TextureIndex {
        self.border_texture
    }

    pub closed spec fn spec_weapon(&self) -> WeaponConfiguration {
        self.weapon
    }

    pub closed spec fn spec_enemies(&self) -> Seq<(EnemyType, int, int)> {
        placed(self.enemies@)
    }

    pub closed spec fn spec_player(&self) -> Option<(char, int, int)> {
        placed_spawn(self.player)
    }

    pub open spec fn wf(&self) -> bool {
        &&& 0 <= self.spec_width()
        &&& 0 <= self.spec_height()
        &&& self.spec_paving().len() == self.spec_width()
        &&& forall|x: int|
            0 <= x < self.spec_width() ==> #[trigger] self.spec_paving()[x].len() == self.spec_height()
        &&& forall|x: int, y: int|
            0 <= x < self.spec_width() && 0 <= y < self.spec_height() ==> (
            #[trigger] self.spec_paving()[x][y]).wf()
    }

    pub open spec fn in_bounds(&self, x: int, y: int) -> bool {
        0 <= x < self.spec_width() && 0 <= y < self.spec_height()
    }

    /// Reads `paving` with `configuration`. The lines of the text are cut at
    /// `'\n'`; empty lines are skipped, every other line is one row, the first
    /// on top, and all rows must be equally long. Enemy and player marks stand
    /// on free space; their heights count every line, empty or not.
    pub fn new(paving: &str, configuration: MapConfiguration) -> (r: Result<Self, MapError>)
        requires
            configuration.wf(),
        ensures
            ({
                let lines = split_lines(paving@);
                let rows = map_rows(lines);
                &&& (r == Err::<Self, MapError>(MapError::UnknownChar)) == has_unknown_char(
                    configuration,
                    lines,
                )
                &&& (r == Err::<Self, MapError>(MapError::InconsistentColumns)) == (
                !has_unknown_char(configuration, lines) && !columns_consistent(lines))
                &&& (r == Err::<Self, MapError>(MapError::TooLarge)) == (!has_unknown_char(
                    configuration,
                    lines,
                ) && columns_consistent(lines) && too_large(lines))
                &&& r matches Ok(map) ==> {
                    &&& map.wf()
                    &&& map.spec_width() == grid_width(lines)
                    &&& map.spec_height() == rows.len()
                    &&& map.spec_border_texture() == configuration.spec_border_texture()
                    &&& map.spec_weapon() == configuration.spec_weapon()
                    &&& map.spec_enemies() == map_enemies(configuration, lines, lines.len() as int)
                    &&& map.spec_player() == map_spawn(configuration, lines, lines.len() as int)
                    &&& forall|x: int, y: int|
                        map.in_bounds(x, y) ==> Some(#[trigger] map.spec_paving()[x][y])
                            == configuration.cell(lines[rows[rows.len() - 1 - y]][x])
                }
            }),
    {
        let lines = lines_of(paving);
        let ghost view = deep_chars(lines@);
        if !all_chars_known(&configuration, &lines) {
            return Err(MapError::UnknownChar);
        }
        let rows = row_indices(&lines);
        let width: usize = if rows.len() == 0 {
            0
        } else {
            lines[rows[0]].len()
        };
        assert(width == grid_width(view)) by {
            if rows@.len() > 0 {
                assert(as_ints(rows@)[0] == rows@[0] as int);
                assert(view[rows@[0] as int] == lines@[rows@[0] as int]@);
            }
        }
        let mut k: usize = 0;
        while k < rows.len()
            invariant
                k <= rows@.len(),
                view == deep_chars(lines@),
                view == split_lines(paving@),
                !has_unknown_char(configuration, view),
                as_ints(rows@) == map_rows(view),
                forall|a: int| 0 <= a < rows@.len() ==> #[trigger] rows@[a] < lines@.len(),
                width == grid_width(view),
                forall|a: int| 0 <= a < k ==> #[trigger] lines@[rows@[a] as int]@.len() == width,
            decreases rows@.len() - k,
        {
            if lines[rows[k]].len() != width {
                assert(as_ints(rows@)[k as int] == rows@[k as int] as int);
                assert(view[rows@[k as int] as int] == lines@[rows@[k as int] as int]@);
                assert(!columns_consistent(view));
                return Err(MapError::InconsistentColumns);
            }
            k = k + 1;
        }
        assert(columns_consistent(view)) by {
            assert forall|a: int| 0 <= a < map_rows(view).len() implies #[trigger] view[map_rows(
                view,
            )[a]].len() == grid_width(view) by {
                assert(as_ints(rows@)[a] == rows@[a] as int);
                assert(view[rows@[a] as int] == lines@[rows@[a] as int]@);
            }
        }
        if lines.len() > 32767 || width > 32767 {
            return Err(MapError::TooLarge);
        }
        assert forall|i: int| 0 <= i < lines@.len() implies #[trigger] lines@[i]@.len()
            <= i16::MAX by {
            assert(view[i] == lines@[i]@);
            if lines@[i]@.len() > 0 {
                lemma_nonempty_line_is_row(view, lines@.len() as int, i);
                let a = choose|a: int|
                    0 <= a < map_rows(view).len() && #[trigger] map_rows(view)[a] == i;
                assert(view[map_rows(view)[a]].len() == grid_width(view));
            }
        }
        let (enemies, player) = collect_marks(&configuration, &lines);
        let paving = build_paving(&configuration, &lines, &rows, width);
        let map = LevelMap {
            border_texture: configuration.map_border_texture(),
            weapon: configuration.weapon(),
            paving,
            enemies,
            player,
            width: width as i16,
            height: rows.len() as i16,
        };
        assert forall|x: int, y: int| map.in_bounds(x, y) implies Some(
            #[trigger] map.spec_paving()[x][y],
        ) == configuration.cell(view[map_rows(view)[map_rows(view).len() - 1 - y]][x]) by {
            let b = rows@.len() - 1 - y;
            assert(as_ints(rows@)[b] == rows@[b] as int);
            assert(view[rows@[b] as int] == lines@[rows@[b] as int]@);
        }
        Ok(map)
    }

    /// The tile at `(x, y)`, or `None` outside the map.
    pub fn paving_at(&self, x: i16, y: i16) -> (r: Option<&Tile>)
        requires
            self.wf(),
        ensures
            r is Some == self.in_bounds(x as int, y as int),
            r matches Some(t) ==> *t == self.spec_paving()[x as int][y as int] && t.wf(),
    {
        if x < 0 || y < 0 || x >= self.width || y >= self.height {
            return None;
        }
        Some(&self.paving[x as usize][y as usize])
    }

    pub fn width(&self) -> (r: i16)
        ensures
            r == self.spec_width(),
    {
        self.width
    }

    pub fn height(&self) -> (r: i16)
        ensures
            r == self.spec_height(),
    {
        self.height
    }

    /// The texture drawn where a ray leaves the map.
    pub fn border_texture(&self) -> (r: TextureIndex)
        ensures
            r == self.spec_border_texture(),
    {
        self.border_texture
    }

    /// A weapon of the configured kind, before any swing.
    pub fn generate_weapon(&self) -> (r: Weapon)
        ensures
            r.spec_configuration() == self.spec_weapon(),
            !r.spec_already_hit(),
            r.spec_elapsed() == 0,
    {
        Weapon::new(self.weapon)
    }

    /// Each enemy mark, in reading order, with its tile.
    pub fn generate_enemies(&self) -> (r: Vec<(EnemyType, MapPoint)>)
        ensures
            placed(r@) == self.spec_enemies(),
    {
        let mut out: Vec<(EnemyType, MapPoint)> = Vec::new();
        let mut i: usize = 0;
        while i < self.enemies.len()
            invariant
                i <= self.enemies@.len(),
                out@ == self.enemies@.take(i as int),
            decreases self.enemies@.len() - i,
        {
            out.push(self.enemies[i]);
            assert(out@ =~= self.enemies@.take(i as int + 1));
            i = i + 1;
        }
        assert(self.enemies@.take(i as int) == self.enemies@);
        out
    }

    /// The last player mark, with its character and its tile.
    pub fn generate_player(&self) -> (r: Option<(char, MapPoint)>)
        ensures
            placed_spawn(r) == self.spec_player(),
    {
        self.player
    }
}

/// A line of the first `n` that is not empty is one of their rows.
proof fn lemma_nonempty_line_is_row(lines: Seq<Seq<char>>, n: int, i: int)
    requires
        0 <= i < n <= lines.len(),
        lines[i].len() > 0,
    ensures
        exists|a: int|
            0 <= a < nonempty_indices(lines, n).len() && #[trigger] nonempty_indices(lines, n)[a]
                == i,
    decreases n,
{
    if i == n - 1 {
        assert(nonempty_indices(lines, n).last() == i);
    } else {
        lemma_nonempty_line_is_row(lines, n - 1, i);
        let a = choose|a: int|
            0 <= a < nonempty_indices(lines, n - 1).len() && #[trigger] nonempty_indices(
                lines,
                n - 1,
            )[a] == i;
        assert(nonempty_indices(lines, n)[a] == i);
    }
}

} // verus!
