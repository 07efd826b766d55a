use vstd::prelude::*;

verus! {

/// One wave of enemies before difficulty scaling: `count` enemies of the given stats.
#[derive(Clone, Copy, Debug, PartialEq, Eq)]
pub struct EnemyWave {
    pub name: &'static str,
    pub count: u8,
    pub hp: i64,
    pub attack: i64,
    pub defense: i64,
}

/// Plain view of an enemy wave.
pub open spec fn wave_view(w: EnemyWave) -> (Seq<char>, int, int, int, int) {
    (w.name@, w.count as int, w.hp as int, w.attack as int, w.defense as int)
}

/// Chapter of a stage: fifty stages per chapter, ten chapters.
pub open spec fn chapter_spec(stage: int) -> int {
    if 1 <= stage <= 450 {
        (stage - 1) / 50 + 1
    } else {
        10
    }
}

/// Chapter of a stage: fifty stages per chapter, ten chapters.
pub fn chapter_for_stage(stage: i64) -> (r: u8)
    ensures
        r as int == chapter_spec(stage as int),
{
    if 1 <= stage && stage <= 450 {
        ((stage - 1) / 50 + 1) as u8
    } else {
        10
    }
}

/// Display name of a chapter.
pub open spec fn chapter_name_spec(chapter: int) -> Seq<char> {
    if chapter == 1 {
        "Floresta"@
    } else if chapter == 2 {
        "Deserto"@
    } else if chapter == 3 {
        "Gelo"@
    } else if chapter == 4 {
        "Vulcão"@
    } else if chapter == 5 {
        "Pântano"@
    } else if chapter == 6 {
        "Ruínas"@
    } else if chapter == 7 {
        "Abismo"@
    } else if chapter == 8 {
        "Celestial"@
    } else if chapter == 9 {
        "Caos"@
    } else if chapter == 10 {
        "Primordial"@
    } else {
        "Desconhecido"@
    }
}

/// Display name of a chapter.
pub fn chapter_name(chapter: u8) -> (r: &'static str)
    ensures
        r@ == chapter_name_spec(chapter as int),
{
    if chapter == 1 {
        "Floresta"
    } else if chapter == 2 {
        "Deserto"
    } else if chapter == 3 {
        "Gelo"
    } else if chapter == 4 {
        "Vulcão"
    } else if chapter == 5 {
        "Pântano"
    } else if chapter == 6 {
        "Ruínas"
    } else if chapter == 7 {
        "Abismo"
    } else if chapter == 8 {
        "Celestial"
    } else if chapter == 9 {
        "Caos"
    } else if chapter == 10 {
        "Primordial"
    } else {
        "Desconhecido"
    }
}

/// Boss that closes a chapter.
pub open spec fn boss_spec(chapter: int) -> Seq<char> {
    if chapter == 1 {
        "troll_ancestral"@
    } else if chapter == 2 {
        "farao_imortal"@
    } else if chapter == 3 {
        "rei_inverno"@
    } else if chapter == 4 {
        "senhor_inferno"@
    } else if chapter == 5 {
        "rainha_hidra"@
    } else if chapter == 6 {
        "guardiao_ancestral"@
    } else if chapter == 7 {
        "senhor_sombras"@
    } else if chapter == 8 {
        "arcanjo_corrompido"@
    } else if chapter == 9 {
        "avatar_caos"@
    } else if chapter == 10 {
        "o_criador"@
    } else {
        "boss"@
    }
}

/// Boss that closes a chapter.
pub fn boss_for_chapter(chapter: u8) -> (r: &'static str)
    ensures
        r@ == boss_spec(chapter as int),
{
    if chapter == 1 {
        "troll_ancestral"
    } else if chapter == 2 {
        "farao_imortal"
    } else if chapter == 3 {
        "rei_inverno"
    } else if chapter == 4 {
        "senhor_inferno"
    } else if chapter == 5 {
        "rainha_hidra"
    } else if chapter == 6 {
        "guardiao_ancestral"
    } else if chapter == 7 {
        "senhor_sombras"
    } else if chapter == 8 {
        "arcanjo_corrompido"
    } else if chapter == 9 {
        "avatar_caos"
    } else if chapter == 10 {
        "o_criador"
    } else {
        "boss"
    }
}

/// Regular enemies of the first two waves of a chapter.
pub open spec fn trash_spec(chapter: int, wave: int) -> (Seq<char>, int, int, int, int) {
    if chapter == 1 && wave == 1 {
        ("slime"@, 3, 90, 12, 4)
    } else if chapter == 1 && wave == 2 {
        ("goblin"@, 2, 170, 22, 12)
    } else if chapter == 2 && wave == 1 {
        ("scorpion"@, 3, 210, 28, 10)
    } else if chapter == 2 && wave == 2 {
        ("mummy"@, 2, 380, 45, 22)
    } else if chapter == 3 && wave == 1 {
        ("yeti"@, 2, 420, 55, 30)
    } else if chapter == 3 && wave == 2 {
        ("ice_elemental"@, 2, 520, 65, 35)
    } else if chapter == 4 && wave == 1 {
        ("imp"@, 3, 580, 75, 38)
    } else if chapter == 4 && wave == 2 {
        ("fire_elemental"@, 2, 720, 88, 42)
    } else if chapter == 5 && wave == 1 {
        ("hydra_spawn"@, 2, 800, 95, 45)
    } else if chapter == 5 && wave == 2 {
        ("cobra_giant"@, 2, 950, 110, 50)
    } else if chapter == 6 && wave == 1 {
        ("golem"@, 2, 1100, 125, 60)
    } else if chapter == 6 && wave == 2 {
        ("specter"@, 2, 1250, 140, 65)
    } else if chapter == 7 && wave == 1 {
        ("shadow"@, 3, 1350, 155, 70)
    } else if chapter == 7 && wave == 2 {
        ("lich"@, 1, 1800, 200, 80)
    } else if chapter == 8 && wave == 1 {
        ("fallen_angel"@, 2, 1500, 170, 75)
    } else if chapter == 8 && wave == 2 {
        ("valkyrie"@, 2, 1650, 185, 85)
    } else if chapter == 9 && wave == 1 {
        ("aberration"@, 2, 1800, 200, 90)
    } else if chapter == 9 && wave == 2 {
        ("void_walker"@, 2, 2000, 220, 95)
    } else if chapter == 10 && wave == 1 {
        ("titan"@, 1, 2800, 300, 110)
    } else if chapter == 10 && wave == 2 {
        ("primordial_dragon"@, 1, 3500, 380, 130)
    } else if wave == 1 {
        ("slime"@, 3, 90, 12, 4)
    } else {
        ("goblin"@, 2, 170, 22, 12)
    }
}

/// Regular enemies of the first two waves of a chapter.
pub fn trash_for_chapter(chapter: u8, wave: u8) -> (r: EnemyWave)
    ensures
        wave_view(r) == trash_spec(chapter as int, wave as int),
{
    if chapter == 1 && wave == 1 {
        EnemyWave { name: "slime", count: 3, hp: 90, attack: 12, defense: 4 }
    } else if chapter == 1 && wave == 2 {
        EnemyWave { name: "goblin", count: 2, hp: 170, attack: 22, defense: 12 }
    } else if chapter == 2 && wave == 1 {
        EnemyWave { name: "scorpion", count: 3, hp: 210, attack: 28, defense: 10 }
    } else if chapter == 2 && wave == 2 {
        EnemyWave { name: "mummy", count: 2, hp: 380, attack: 45, defense: 22 }
    } else if chapter == 3 && wave == 1 {
        EnemyWave { name: "yeti", count: 2, hp: 420, attack: 55, defense: 30 }
    } else if chapter == 3 && wave == 2 {
        EnemyWave { name: "ice_elemental", count: 2, hp: 520, attack: 65, defense: 35 }
    } else if chapter == 4 && wave == 1 {
        EnemyWave { name: "imp", count: 3, hp: 580, attack: 75, defense: 38 }
    } else if chapter == 4 && wave == 2 {
        EnemyWave { name: "fire_elemental", count: 2, hp: 720, attack: 88, defense: 42 }
    } else if chapter == 5 && wave == 1 {
        EnemyWave { name: "hydra_spawn", count: 2, hp: 800, attack: 95, defense: 45 }
    } else if chapter == 5 && wave == 2 {
        EnemyWave { name: "cobra_giant", count: 2, hp: 950, attack: 110, defense: 50 }
    } else if chapter == 6 && wave == 1 {
        EnemyWave { name: "golem", count: 2, hp: 1100, attack: 125, defense: 60 }
    } else if chapter == 6 && wave == 2 {
        EnemyWave { name: "specter", count: 2, hp: 1250, attack: 140, defense: 65 }
    } else if chapter == 7 && wave == 1 {
        EnemyWave { name: "shadow", count: 3, hp: 1350, attack: 155, defense: 70 }
    } else if chapter == 7 && wave == 2 {
        EnemyWave { name: "lich", count: 1, hp: 1800, attack: 200, defense: 80 }
    } else if chapter == 8 && wave == 1 {
        EnemyWave { name: "fallen_angel", count: 2, hp: 1500, attack: 170, defense: 75 }
    } else if chapter == 8 && wave == 2 {
        EnemyWave { name: "valkyrie", count: 2, hp: 1650, attack: 185, defense: 85 }
    } else if chapter == 9 && wave == 1 {
        EnemyWave { name: "aberration", count: 2, hp: 1800, attack: 200, defense: 90 }
    } else if chapter == 9 && wave == 2 {
        EnemyWave { name: "void_walker", count: 2, hp: 2000, attack: 220, defense: 95 }
    } else if chapter == 10 && wave == 1 {
        EnemyWave { name: "titan", count: 1, hp: 2800, attack: 300, defense: 110 }
    } else if chapter == 10 && wave == 2 {
        EnemyWave { name: "primordial_dragon", count: 1, hp: 3500, attack: 380, defense: 130 }
    } else if wave == 1 {
        EnemyWave { name: "slime", count: 3, hp: 90, attack: 12, defense: 4 }
    } else {
        EnemyWave { name: "goblin", count: 2, hp: 170, attack: 22, defense: 12 }
    }
}

/// Enemies of a wave before difficulty scaling. Waves one and two hold the chapter's
/// regular enemies; the third holds the chapter boss on every fiftieth stage, a troll
/// on every other tenth stage, and otherwise a wolf pack with the strength of the
/// second wave. Stages are clamped to 1..=500.
pub open spec fn enemy_wave_spec(stage: int, wave: int) -> (Seq<char>, int, int, int, int) {
    let s = if stage < 1 {
        1
    } else if stage > 500 {
        500
    } else {
        stage
    };
    let chapter = chapter_spec(s);
    if wave == 1 || wave == 2 {
        trash_spec(chapter, wave)
    } else if s % 50 == 0 {
        (
            boss_spec(chapter),
            1,
            1200 + chapter * 900 + s * 12,
            85 + chapter * 35 + s / 3,
            65 + chapter * 18 + s / 6,
        )
    } else if s % 10 == 0 {
        (
            "troll"@,
            1,
            1100 + s * 8 + chapter * 120,
            78 + s / 4 + chapter * 12,
            65 + s / 8 + chapter * 8,
        )
    } else {
        let t = trash_spec(chapter, 2);
        ("wolf"@, t.1, t.2, t.3, t.4)
    }
}

/// Enemies of a wave before difficulty scaling.
pub fn enemy_wave(stage: u16, wave: u8) -> (r: EnemyWave)
    ensures
        wave_view(r) == enemy_wave_spec(stage as int, wave as int),
{
    let s: i64 = if stage < 1 {
        1
    } else if stage > 500 {
        500
    } else {
        stage as i64
    };
    let chapter = chapter_for_stage(s);
    let c = chapter as i64;
    if wave == 1 || wave == 2 {
        trash_for_chapter(chapter, wave)
    } else if s % 50 == 0 {
        EnemyWave {
            name: boss_for_chapter(chapter),
            count: 1,
            hp: 1200 + c * 900 + s * 12,
            attack: 85 + c * 35 + s / 3,
            defense: 65 + c * 18 + s / 6,
        }
    } else if s % 10 == 0 {
        EnemyWave {
            name: "troll",
            count: 1,
            hp: 1100 + s * 8 + c * 120,
            attack: 78 + s / 4 + c * 12,
            defense: 65 + s / 8 + c * 8,
        }
    } else {
        let t = trash_for_chapter(chapter, 2);
        EnemyWave { name: "wolf", ..t }
    }
}

/// Scaling of a stage's enemies in thousandths, before difficulty:
/// 1 + 0.045 per stage + 0.35 per chapter (stage clamped to 1..=500).
pub open spec fn base_factor_permille_spec(stage: int) -> int {
    let s = if stage < 1 {
        1
    } else if stage > 500 {
        500
    } else {
        stage
    };
    1000 + 45 * s + 350 * chapter_spec(s)
}

/// Scaling of a stage's enemies in thousandths, before difficulty.
pub fn base_factor_permille(stage: u16) -> (r: i64)
    ensures
        r as int == base_factor_permille_spec(stage as int),
{
    let s: i64 = if stage < 1 {
        1
    } else if stage > 500 {
        500
    } else {
        stage as i64
    };
    1000 + 45 * s + 350 * (chapter_for_stage(s) as i64)
}

} // verus!
