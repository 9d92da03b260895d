use vstd::prelude::*;
use crate::config::AppConfig;
use crate::env::{
    EnvPaths, join_path, spec_default_cargo_home, spec_default_rustup_home, spec_xdg_cache_home,
    spec_xdg_config_home, spec_xdg_data_home,
};
use crate::migrate::{
    MigrationPlan, MoveView, has_root, is_migration_plan, migration_candidates, normal_pieces,
    path_components, path_pieces, planned_moves, same_path, step_matches,
};
use crate::resolver::resolution;

verus! {

/// An explicit `RUSTUP_HOME` decides the config, data and cache directories
/// (cache is `RUSTUP_HOME/tmp`), whatever the mode and the configuration
/// file say.
pub proof fn law_rustup_home_wins(env: EnvPaths, config: AppConfig, use_xdg: bool)
    requires
        env.rustup_home is Some,
    ensures
        resolution(env, config, use_xdg).config_dir == env.rustup_home.unwrap()@,
        resolution(env, config, use_xdg).data_dir == env.rustup_home.unwrap()@,
        resolution(env, config, use_xdg).cache_dir == join_path(env.rustup_home.unwrap()@, "tmp"@),
{
}

/// An explicit `CARGO_HOME` decides the bin directory (`CARGO_HOME/bin`),
/// whatever the mode and the configuration file say.
pub proof fn law_cargo_home_wins(env: EnvPaths, config: AppConfig, use_xdg: bool)
    requires
        env.cargo_home is Some,
    ensures
        resolution(env, config, use_xdg).bin_dir == join_path(env.cargo_home.unwrap()@, "bin"@),
{
}

/// Without XDG mode, environment overrides or file overrides, rustup's
/// current layout is kept: `~/.rustup` for config and data, `~/.rustup/tmp`
/// for the cache, `~/.cargo/bin` for binaries.
pub proof fn law_legacy_layout_by_default(env: EnvPaths, config: AppConfig)
    requires
        env.rustup_home is None,
        env.cargo_home is None,
        config.effective_overrides().is_empty(),
    ensures
        resolution(env, config, false).config_dir == spec_default_rustup_home(env),
        resolution(env, config, false).data_dir == spec_default_rustup_home(env),
        resolution(env, config, false).cache_dir == join_path(spec_default_rustup_home(env), "tmp"@),
        resolution(env, config, false).bin_dir == join_path(spec_default_cargo_home(env), "bin"@),
{
}

/// In XDG mode, without environment or file overrides, config, data and
/// cache are split into the `rustup` directories of the three XDG homes,
/// and binaries stay in `~/.cargo/bin`.
pub proof fn law_xdg_split(env: EnvPaths, config: AppConfig)
    requires
        env.rustup_home is None,
        env.cargo_home is None,
        config.effective_overrides().is_empty(),
    ensures
        resolution(env, config, true).config_dir == join_path(spec_xdg_config_home(env), "rustup"@),
        resolution(env, config, true).data_dir == join_path(spec_xdg_data_home(env), "rustup"@),
        resolution(env, config, true).cache_dir == join_path(spec_xdg_cache_home(env), "rustup"@),
        resolution(env, config, true).bin_dir == join_path(spec_default_cargo_home(env), "bin"@),
{
}

/// XDG mode never moves the bin directory: it and the decision behind it
/// are the same in both modes.
pub proof fn law_xdg_mode_keeps_bin_dir(env: EnvPaths, config: AppConfig)
    ensures
        resolution(env, config, true).bin_dir == resolution(env, config, false).bin_dir,
        resolution(env, config, true).decisions[3] == resolution(env, config, false).decisions[3],
{
}

/// Without `RUSTUP_HOME`, a directory set in the configuration file is the
/// one used for config, data and cache, in either mode; likewise for the
/// bin directory without `CARGO_HOME`.
pub proof fn law_file_overrides_beat_defaults(env: EnvPaths, config: AppConfig, use_xdg: bool)
    ensures
        env.rustup_home is None && config.effective_overrides().config_dir is Some ==> resolution(
            env,
            config,
            use_xdg,
        ).config_dir == config.effective_overrides().config_dir.unwrap()@,
        env.rustup_home is None && config.effective_overrides().data_dir is Some ==> resolution(
            env,
            config,
            use_xdg,
        ).data_dir == config.effective_overrides().data_dir.unwrap()@,
        env.rustup_home is None && config.effective_overrides().cache_dir is Some ==> resolution(
            env,
            config,
            use_xdg,
        ).cache_dir == config.effective_overrides().cache_dir.unwrap()@,
        env.cargo_home is None && config.effective_overrides().bin_dir is Some ==> resolution(
            env,
            config,
            use_xdg,
        ).bin_dir == config.effective_overrides().bin_dir.unwrap()@,
{
}

/// A report explains every directory once, in the order config, data,
/// cache, bin, and each decision names the directory that was resolved.
pub proof fn law_decisions_match_resolution(env: EnvPaths, config: AppConfig, use_xdg: bool)
    ensures
        ({
            let r = resolution(env, config, use_xdg);
            &&& r.decisions.len() == 4
            &&& r.decisions[0].name == "config_dir"@ && r.decisions[0].selected_path == r.config_dir
            &&& r.decisions[1].name == "data_dir"@ && r.decisions[1].selected_path == r.data_dir
            &&& r.decisions[2].name == "cache_dir"@ && r.decisions[2].selected_path == r.cache_dir
            &&& r.decisions[3].name == "bin_dir"@ && r.decisions[3].selected_path == r.bin_dir
        }),
{
}

/// Configuration-file overrides always come with the warning that they are
/// a prototype, and it is then the first warning.
pub proof fn law_file_overrides_are_flagged(env: EnvPaths, config: AppConfig, use_xdg: bool)
    ensures
        !config.effective_overrides().is_empty() ==> resolution(env, config, use_xdg).warnings.len()
            > 0 && resolution(env, config, use_xdg).warnings[0]
            == crate::resolver::prototype_override_warning(),
{
}

/// Every planned move is one of the candidate moves.
pub(crate) proof fn lemma_planned_moves_are_candidates(cands: Seq<MoveView>)
    ensures
        forall|j: int|
            0 <= j < planned_moves(cands).len() ==> exists|k: int|
                0 <= k < cands.len() && #[trigger] planned_moves(cands)[j] == cands[k]
                    && !same_path(cands[k].from, cands[k].to),
    decreases cands.len(),
{
    if cands.len() > 0 {
        lemma_planned_moves_are_candidates(cands.drop_last());
        let rest = planned_moves(cands.drop_last());
        assert forall|j: int| 0 <= j < planned_moves(cands).len() implies exists|k: int|
            0 <= k < cands.len() && #[trigger] planned_moves(cands)[j] == cands[k]
                && !same_path(cands[k].from, cands[k].to) by {
            if j < rest.len() {
                let k = choose|k: int|
                    0 <= k < cands.drop_last().len() && rest[j] == cands.drop_last()[k]
                        && !same_path(cands.drop_last()[k].from, cands.drop_last()[k].to);
                assert(cands[k] == cands.drop_last()[k]);
            } else {
                assert(planned_moves(cands)[j] == cands[cands.len() - 1]);
            }
        }
    }
}

/// Every candidate that moves something is planned.
pub(crate) proof fn lemma_candidates_are_planned(cands: Seq<MoveView>)
    ensures
        forall|k: int|
            0 <= k < cands.len() && !same_path(cands[k].from, cands[k].to) ==> exists|j: int|
                0 <= j < planned_moves(cands).len() && planned_moves(cands)[j] == #[trigger] cands[k],
    decreases cands.len(),
{
    if cands.len() > 0 {
        let init = cands.drop_last();
        lemma_candidates_are_planned(init);
        let rest = planned_moves(init);
        let moves = planned_moves(cands);
        assert forall|k: int|
            0 <= k < cands.len() && !same_path(cands[k].from, cands[k].to) implies exists|j: int|
            0 <= j < moves.len() && moves[j] == #[trigger] cands[k] by {
            if k < init.len() {
                assert(init[k] == cands[k]);
                let j = choose|j: int| 0 <= j < rest.len() && rest[j] == init[k];
                assert(moves[j] == rest[j]);
            } else {
                assert(moves[rest.len() as int] == cands[k]);
            }
        }
    }
}

/// Planned moves keep the candidates' order: two planned moves come from
/// two candidates in the same order.
pub(crate) proof fn lemma_planned_moves_ordered(cands: Seq<MoveView>)
    ensures
        forall|j1: int, j2: int|
            0 <= j1 < j2 < planned_moves(cands).len() ==> exists|k1: int, k2: int|
                0 <= k1 < k2 < cands.len() && #[trigger] planned_moves(cands)[j1] == cands[k1]
                    && #[trigger] planned_moves(cands)[j2] == cands[k2],
    decreases cands.len(),
{
    if cands.len() > 0 {
        let init = cands.drop_last();
        lemma_planned_moves_ordered(init);
        lemma_planned_moves_are_candidates(init);
        let rest = planned_moves(init);
        let moves = planned_moves(cands);
        assert forall|j1: int, j2: int| 0 <= j1 < j2 < moves.len() implies exists|k1: int, k2: int|
            0 <= k1 < k2 < cands.len() && #[trigger] moves[j1] == cands[k1] && #[trigger] moves[j2]
                == cands[k2] by {
            if j2 < rest.len() {
                let (k1, k2) = choose|k1: int, k2: int|
                    0 <= k1 < k2 < init.len() && rest[j1] == init[k1] && rest[j2] == init[k2];
                assert(moves[j1] == cands[k1] && moves[j2] == cands[k2]);
            } else {
                let k1 = choose|k1: int| 0 <= k1 < init.len() && rest[j1] == init[k1];
                assert(moves[j1] == cands[k1]);
                assert(moves[j2] == cands[cands.len() - 1]);
            }
        }
    }
}

/// In legacy mode the toolchains and `settings.toml` are already where they
/// belong: with neither `RUSTUP_HOME` nor file overrides for config and
/// data, every step of the plan is the move of `~/.rustup/downloads` into
/// the cache directory, so there is at most one.
pub proof fn law_legacy_layout_moves_only_downloads<F: Fn(&String) -> bool>(
    env: EnvPaths,
    config: AppConfig,
    path_exists: F,
    plan: MigrationPlan,
)
    requires
        env.rustup_home is None,
        config.effective_overrides().config_dir is None,
        config.effective_overrides().data_dir is None,
        is_migration_plan(resolution(env, config, false), env, path_exists, plan),
    ensures
        plan.steps@.len() <= 1,
        forall|i: int|
            0 <= i < plan.steps@.len() ==> #[trigger] plan.steps@[i].from@ == join_path(
                spec_default_rustup_home(env),
                "downloads"@,
            ),
{
    let cands = migration_candidates(resolution(env, config, false), env);
    let moves = planned_moves(cands);
    lemma_planned_moves_are_candidates(cands);
    assert forall|i: int| 0 <= i < plan.steps@.len() implies #[trigger] plan.steps@[i].from@
        == join_path(spec_default_rustup_home(env), "downloads"@) && moves[i] == cands[2] by {
        let k = choose|k: int| 0 <= k < cands.len() && moves[i] == cands[k];
        assert(step_matches(plan.steps@[i], moves[i], path_exists));
        assert(cands[0].from == cands[0].to);
        assert(cands[1].from == cands[1].to);
        assert(k == 2);
    }
    if plan.steps@.len() > 1 {
        lemma_planned_moves_ordered(cands);
        let (k1, k2) = choose|k1: int, k2: int|
            0 <= k1 < k2 < cands.len() && moves[0] == cands[k1] && moves[1] == cands[k2];
        assert(plan.steps@[0].from@ == plan.steps@[1].from@);
        assert(false);
    }
}

/// A name fit to be one path component: not empty, not `.`, no `/`.
pub open spec fn is_plain_name(c: Seq<char>) -> bool {
    &&& c.len() > 0
    &&& c != seq!['.']
    &&& forall|i: int| 0 <= i < c.len() ==> c[i] != '/'
}

proof fn lemma_pieces_nonempty(s: Seq<char>)
    ensures
        path_pieces(s).len() >= 1,
    decreases s.len(),
{
    if s.len() > 0 {
        lemma_pieces_nonempty(s.drop_last());
    }
}

/// Appending text without a separator extends the last piece.
proof fn lemma_pieces_extend(b: Seq<char>, c: Seq<char>)
    requires
        forall|i: int| 0 <= i < c.len() ==> c[i] != '/',
    ensures
        path_pieces(b + c) == path_pieces(b).update(
            path_pieces(b).len() - 1,
            path_pieces(b).last() + c,
        ),
    decreases c.len(),
{
    lemma_pieces_nonempty(b);
    if c.len() == 0 {
        assert(b + c =~= b);
        assert(path_pieces(b).last() + c =~= path_pieces(b).last());
        assert(path_pieces(b).update(path_pieces(b).len() - 1, path_pieces(b).last())
            =~= path_pieces(b));
    } else {
        let c0 = c.drop_last();
        lemma_pieces_extend(b, c0);
        assert((b + c).drop_last() =~= b + c0);
        assert((b + c).last() == c.last());
        let pb = path_pieces(b);
        assert((pb.last() + c0).push(c.last()) =~= pb.last() + c);
        assert(path_pieces(b + c) =~= pb.update(pb.len() - 1, pb.last() + c));
    }
}

/// Appending a separator starts a new, empty piece.
proof fn lemma_pieces_separator(b: Seq<char>)
    ensures
        path_pieces(b.push('/')) == path_pieces(b).push(seq![]),
{
    assert(b.push('/').drop_last() =~= b);
}

proof fn lemma_normal_push(ps: Seq<Seq<char>>, p: Seq<char>)
    ensures
        normal_pieces(ps.push(p)) == if p.len() == 0 || p == seq!['.'] {
            normal_pieces(ps)
        } else {
            normal_pieces(ps).push(p)
        },
{
    assert(ps.push(p).drop_last() =~= ps);
}

/// Joining a plain name onto a path adds exactly that component.
pub proof fn lemma_join_plain_name(b: Seq<char>, c: Seq<char>)
    requires
        is_plain_name(c),
    ensures
        has_root(join_path(b, c)) == has_root(b),
        path_components(join_path(b, c)) == path_components(b).push(c),
{
    lemma_pieces_nonempty(b);
    let pb = path_pieces(b);
    if b.len() == 0 {
        assert(join_path(b, c) =~= c);
        lemma_pieces_extend(b, c);
        assert(seq![] + c =~= c);
        assert(path_pieces(c) =~= seq![c]);
        lemma_normal_push(seq![], c);
        assert(seq![c] =~= Seq::<Seq<char>>::empty().push(c));
        lemma_normal_push(seq![], seq![]);
        assert(seq![seq![]] =~= Seq::<Seq<char>>::empty().push(seq![]));
        assert(normal_pieces(Seq::<Seq<char>>::empty()) =~= seq![]);
    } else if b.last() == '/' {
        assert(join_path(b, c) == b + c);
        let p0 = path_pieces(b.drop_last());
        lemma_pieces_nonempty(b.drop_last());
        assert(pb == p0.push(seq![]));
        lemma_pieces_extend(b, c);
        assert(seq![] + c =~= c);
        assert(path_pieces(b + c) =~= p0.push(c));
        lemma_normal_push(p0, c);
        lemma_normal_push(p0, seq![]);
        assert((b + c)[0] == b[0]);
        assert(path_pieces(b + c)[0] == pb[0]);
    } else {
        let bs = b.push('/');
        assert(join_path(b, c) =~= bs + c);
        lemma_pieces_separator(b);
        lemma_pieces_extend(bs, c);
        assert(seq![] + c =~= c);
        assert(path_pieces(bs + c) =~= pb.push(c));
        lemma_normal_push(pb, c);
        assert((bs + c)[0] == b[0]);
        assert(path_pieces(bs + c)[0] == pb[0]);
    }
}

/// When no candidate's source and destination are the same path, every
/// candidate is planned.
proof fn lemma_all_moves_planned(cands: Seq<MoveView>)
    requires
        forall|k: int| 0 <= k < cands.len() ==> !same_path(#[trigger] cands[k].from, cands[k].to),
    ensures
        planned_moves(cands) == cands,
    decreases cands.len(),
{
    if cands.len() > 0 {
        let init = cands.drop_last();
        assert forall|k: int| 0 <= k < init.len() implies !same_path(
            #[trigger] init[k].from,
            init[k].to,
        ) by {
            assert(init[k] == cands[k]);
        }
        lemma_all_moves_planned(init);
        assert(!same_path(cands[cands.len() - 1].from, cands[cands.len() - 1].to));
        assert(init.push(cands.last()) =~= cands);
    }
}

/// The names that resolution and migration join onto paths are plain.
proof fn lemma_literal_names_plain()
    ensures
        is_plain_name(".rustup"@),
        is_plain_name("toolchains"@),
        is_plain_name(".local"@),
        is_plain_name("share"@),
        is_plain_name("rustup"@),
        is_plain_name("settings.toml"@),
        is_plain_name(".config"@),
        is_plain_name("downloads"@),
        is_plain_name(".cache"@),
{
    assert(is_plain_name(".rustup"@)) by {
        reveal_strlit(".rustup");
    }
    assert(is_plain_name("toolchains"@)) by {
        reveal_strlit("toolchains");
        assert("toolchains"@.len() == 10);
        assert("toolchains"@ != seq!['.']);
        assert forall|i: int| 0 <= i < 10 implies "toolchains"@[i] != '/' by {
            reveal_strlit("toolchains");
        }
    }
    assert(is_plain_name(".local"@)) by {
        reveal_strlit(".local");
    }
    assert(is_plain_name("share"@)) by {
        reveal_strlit("share");
    }
    assert(is_plain_name("rustup"@)) by {
        reveal_strlit("rustup");
    }
    assert(is_plain_name("settings.toml"@)) by {
        reveal_strlit("settings.toml");
    }
    assert(is_plain_name(".config"@)) by {
        reveal_strlit(".config");
    }
    assert(is_plain_name("downloads"@)) by {
        reveal_strlit("downloads");
    }
    assert(is_plain_name(".cache"@)) by {
        reveal_strlit(".cache");
    }
}

/// Without `RUSTUP_HOME`, file overrides or `XDG_*_HOME` variables, no
/// candidate move of an XDG-mode resolution stays in place.
proof fn lemma_xdg_candidates_move(env: EnvPaths, config: AppConfig)
    requires
        env.rustup_home is None,
        env.xdg_config_home is None,
        env.xdg_data_home is None,
        env.xdg_cache_home is None,
        config.effective_overrides().config_dir is None,
        config.effective_overrides().data_dir is None,
        config.effective_overrides().cache_dir is None,
    ensures
        forall|k: int|
            0 <= k < 3 ==> !same_path(
                #[trigger] migration_candidates(resolution(env, config, true), env)[k].from,
                migration_candidates(resolution(env, config, true), env)[k].to,
            ),
{
    let home = env.home@;
    let r = resolution(env, config, true);
    let cands = migration_candidates(r, env);
    assert(r.data_dir == join_path(join_path(join_path(home, ".local"@), "share"@), "rustup"@));
    assert(r.config_dir == join_path(join_path(home, ".config"@), "rustup"@));
    assert(r.cache_dir == join_path(join_path(home, ".cache"@), "rustup"@));
    lemma_toolchains_move(home);
    lemma_settings_move(home);
    lemma_downloads_move(home);
    assert(!same_path(cands[0].from, cands[0].to));
    assert(!same_path(cands[1].from, cands[1].to));
    assert(!same_path(cands[2].from, cands[2].to));
}

/// `~/.rustup/toolchains` and `~/.local/share/rustup/toolchains` are two
/// paths.
proof fn lemma_toolchains_move(home: Seq<char>)
    ensures
        !same_path(
            join_path(join_path(home, ".rustup"@), "toolchains"@),
            join_path(join_path(join_path(join_path(home, ".local"@), "share"@), "rustup"@), "toolchains"@),
        ),
{
    lemma_literal_names_plain();
    let legacy = join_path(home, ".rustup"@);
    let local = join_path(home, ".local"@);
    let share = join_path(local, "share"@);
    let data = join_path(share, "rustup"@);
    lemma_join_plain_name(home, ".rustup"@);
    lemma_join_plain_name(legacy, "toolchains"@);
    lemma_join_plain_name(home, ".local"@);
    lemma_join_plain_name(local, "share"@);
    lemma_join_plain_name(share, "rustup"@);
    lemma_join_plain_name(data, "toolchains"@);
    assert(path_components(join_path(legacy, "toolchains"@)).len() != path_components(
        join_path(data, "toolchains"@),
    ).len());
}

/// `~/.rustup/settings.toml` and `~/.config/rustup/settings.toml` are two
/// paths.
proof fn lemma_settings_move(home: Seq<char>)
    ensures
        !same_path(
            join_path(join_path(home, ".rustup"@), "settings.toml"@),
            join_path(join_path(join_path(home, ".config"@), "rustup"@), "settings.toml"@),
        ),
{
    lemma_literal_names_plain();
    let legacy = join_path(home, ".rustup"@);
    let config_home = join_path(home, ".config"@);
    let config_dir = join_path(config_home, "rustup"@);
    lemma_join_plain_name(home, ".rustup"@);
    lemma_join_plain_name(legacy, "settings.toml"@);
    lemma_join_plain_name(home, ".config"@);
    lemma_join_plain_name(config_home, "rustup"@);
    lemma_join_plain_name(config_dir, "settings.toml"@);
    assert(path_components(join_path(legacy, "settings.toml"@)).len() != path_components(
        join_path(config_dir, "settings.toml"@),
    ).len());
}

/// `~/.rustup/downloads` and `~/.cache/rustup/downloads` are two paths.
proof fn lemma_downloads_move(home: Seq<char>)
    ensures
        !same_path(
            join_path(join_path(home, ".rustup"@), "downloads"@),
            join_path(join_path(join_path(home, ".cache"@), "rustup"@), "downloads"@),
        ),
{
    lemma_literal_names_plain();
    let legacy = join_path(home, ".rustup"@);
    let cache_home = join_path(home, ".cache"@);
    let cache_dir = join_path(cache_home, "rustup"@);
    lemma_join_plain_name(home, ".rustup"@);
    lemma_join_plain_name(legacy, "downloads"@);
    lemma_join_plain_name(home, ".cache"@);
    lemma_join_plain_name(cache_home, "rustup"@);
    lemma_join_plain_name(cache_dir, "downloads"@);
    assert(path_components(join_path(legacy, "downloads"@)).len() != path_components(
        join_path(cache_dir, "downloads"@),
    ).len());
}

/// In XDG mode, with neither `RUSTUP_HOME`, file overrides for config,
/// data and cache, nor `XDG_*_HOME` variables, every candidate move is
/// planned: the plan has the three steps, in order.
pub proof fn law_xdg_mode_plans_every_move<F: Fn(&String) -> bool>(
    env: EnvPaths,
    config: AppConfig,
    path_exists: F,
    plan: MigrationPlan,
)
    requires
        env.rustup_home is None,
        env.xdg_config_home is None,
        env.xdg_data_home is None,
        env.xdg_cache_home is None,
        config.effective_overrides().config_dir is None,
        config.effective_overrides().data_dir is None,
        config.effective_overrides().cache_dir is None,
        is_migration_plan(resolution(env, config, true), env, path_exists, plan),
    ensures
        plan.steps@.len() == 3,
        forall|i: int|
            0 <= i < 3 ==> step_matches(
                #[trigger] plan.steps@[i],
                migration_candidates(resolution(env, config, true), env)[i],
                path_exists,
            ),
{
    let cands = migration_candidates(resolution(env, config, true), env);
    lemma_xdg_candidates_move(env, config);
    lemma_all_moves_planned(cands);
    assert forall|i: int| 0 <= i < 3 implies step_matches(
        #[trigger] plan.steps@[i],
        cands[i],
        path_exists,
    ) by {
        assert(planned_moves(cands)[i] == cands[i]);
    }
}

} // verus!
