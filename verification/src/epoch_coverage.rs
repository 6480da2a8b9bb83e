//! Why the epoch mapping covers the information schema: every staging table
//! the schema reads has an origin over declared epoch relations, and every
//! column it reads from a relation-backed table has an expression.
//!
//! Both are facts about the declared tables, so they are proved table by
//! table and column by column against the declarations in `schema`, `index`
//! and `epoch`.

use vstd::prelude::*;
use crate::epoch::{
    Origin, col_owner, cols_pairs, epoch_relations_model, expr_rows, origin_of, schema_pairs, spec_epoch_expr,
    column_lineage_exprs_model, docs_exprs_model, edges_exprs_model, exposures_exprs_model, groups_exprs_model, invocations_exprs_model, macros_exprs_model, metrics_exprs_model, nodes_exprs_model, run_results_exprs_model, saved_queries_exprs_model, semantic_dimensions_exprs_model, semantic_entities_exprs_model, semantic_measures_exprs_model, semantic_models_exprs_model, source_freshness_exprs_model, test_metadata_exprs_model, time_spines_exprs_model, unit_tests_exprs_model,
};
use crate::index::{find_column, find_index_table, index_tables_model, nodes_index_model, spec_has_column};
use crate::schema::{TableModel, info_schema_model};
use crate::spec::{ColSpec, Src};
use crate::text::lookup;

verus! {

/// The staging tables a source reads.
pub open spec fn src_tables(src: Src) -> Seq<&'static str> {
    match src {
        Src::Table(t) => seq![t],
        Src::Join { left, right, .. } => seq![left, right],
        Src::Own => Seq::empty(),
    }
}

/// Whether the view layer declares an epoch relation named `view`.
pub open spec fn relation_declared(view: Seq<char>) -> bool {
    exists|r: int| 0 <= r < epoch_relations_model().len() && (#[trigger] epoch_relations_model()[r]).view@ == view
}

/// Whether staging table `t` has an origin, and every epoch relation that
/// origin reads is declared.
pub open spec fn has_declared_origin(t: Seq<char>) -> bool {
    match origin_of(t) {
        Some(Origin::Relation { view, join, .. }) => relation_declared(view@) && match join {
            Some(j) => relation_declared(j.view@),
            None => true,
        },
        Some(_) => true,
        None => false,
    }
}

/// The lengths of the staging table names, and the characters that tell apart
/// names of one length: enough to tell any two of them apart.
proof fn lemma_table_name_shapes()
    ensures
        "nodes"@.len() == 5,
        "macros"@.len() == 6,
        "docs"@.len() == 4,
        "groups"@.len() == 6,
        "exposures"@.len() == 9,
        "metrics"@.len() == 7,
        "unit_tests"@.len() == 10,
        "saved_queries"@.len() == 13,
        "semantic_models"@.len() == 15,
        "test_metadata"@.len() == 13,
        "time_spines"@.len() == 11,
        "edges"@.len() == 5,
        "semantic_entities"@.len() == 17,
        "semantic_measures"@.len() == 17,
        "semantic_dimensions"@.len() == 19,
        "node_columns"@.len() == 12,
        "column_lineage"@.len() == 14,
        "invocations"@.len() == 11,
        "run_results"@.len() == 11,
        "source_freshness"@.len() == 16,
        "project"@.len() == 7,
        "project_vars"@.len() == 12,
        "project_env_vars"@.len() == 16,
        "packages"@.len() == 8,
        "semantic_relationships"@.len() == 22,
        "diagnostics"@.len() == 11,
        "adapter_queries"@.len() == 15,
        "node_input_files"@.len() == 16,
        "generation"@.len() == 10,
        "adapter_queries"@[0] == 'a',
        "diagnostics"@[0] == 'd',
        "edges"@[0] == 'e',
        "generation"@[0] == 'g',
        "groups"@[0] == 'g',
        "invocations"@[0] == 'i',
        "macros"@[0] == 'm',
        "metrics"@[0] == 'm',
        "node_columns"@[0] == 'n',
        "node_input_files"@[0] == 'n',
        "nodes"@[0] == 'n',
        "project"@[0] == 'p',
        "project_env_vars"@[0] == 'p',
        "project_vars"@[0] == 'p',
        "run_results"@[0] == 'r',
        "saved_queries"@[0] == 's',
        "semantic_entities"@[9] == 'e',
        "semantic_measures"@[9] == 'm',
        "semantic_models"@[0] == 's',
        "source_freshness"@[0] == 's',
        "test_metadata"@[0] == 't',
        "time_spines"@[0] == 't',
        "unit_tests"@[0] == 'u',
{
    reveal_strlit("nodes");
    reveal_strlit("macros");
    reveal_strlit("docs");
    reveal_strlit("groups");
    reveal_strlit("exposures");
    reveal_strlit("metrics");
    reveal_strlit("unit_tests");
    reveal_strlit("saved_queries");
    reveal_strlit("semantic_models");
    reveal_strlit("test_metadata");
    reveal_strlit("time_spines");
    reveal_strlit("edges");
    reveal_strlit("semantic_entities");
    reveal_strlit("semantic_measures");
    reveal_strlit("semantic_dimensions");
    reveal_strlit("node_columns");
    reveal_strlit("column_lineage");
    reveal_strlit("invocations");
    reveal_strlit("run_results");
    reveal_strlit("source_freshness");
    reveal_strlit("project");
    reveal_strlit("project_vars");
    reveal_strlit("project_env_vars");
    reveal_strlit("packages");
    reveal_strlit("semantic_relationships");
    reveal_strlit("diagnostics");
    reveal_strlit("adapter_queries");
    reveal_strlit("node_input_files");
    reveal_strlit("generation");
}

proof fn lemma_declared_origins()
    ensures
        has_declared_origin("project"@),
        has_declared_origin("packages"@),
        has_declared_origin("project_env_vars"@),
        has_declared_origin("nodes"@),
        has_declared_origin("test_metadata"@),
        has_declared_origin("unit_tests"@),
        has_declared_origin("macros"@),
        has_declared_origin("groups"@),
        has_declared_origin("exposures"@),
        has_declared_origin("metrics"@),
        has_declared_origin("docs"@),
        has_declared_origin("saved_queries"@),
        has_declared_origin("semantic_models"@),
        has_declared_origin("semantic_entities"@),
        has_declared_origin("semantic_measures"@),
        has_declared_origin("semantic_dimensions"@),
        has_declared_origin("semantic_relationships"@),
        has_declared_origin("time_spines"@),
        has_declared_origin("edges"@),
        has_declared_origin("node_columns"@),
        has_declared_origin("column_lineage"@),
        has_declared_origin("invocations"@),
        has_declared_origin("run_results"@),
        has_declared_origin("source_freshness"@),
        has_declared_origin("diagnostics"@),
        has_declared_origin("adapter_queries"@),
        has_declared_origin("node_input_files"@),
{
    lemma_table_name_shapes();
    let rels = epoch_relations_model();
    assert(rels[0].view@ == "epoch_parse_nodes"@);
    assert(rels[6].view@ == "epoch_compile_nodes"@);
    assert(rels[8].view@ == "epoch_compile_cll"@);
    assert(rels[10].view@ == "epoch_run_invocations"@);
    assert(rels[11].view@ == "epoch_run_results"@);
    assert(rels[12].view@ == "epoch_run_freshness"@);
}

#[verifier::spinoff_prover]
proof fn lemma_table_origins_0_9(k: int)
    requires
        0 <= k < 9,
    ensures
        forall|t: int| 0 <= t < src_tables(info_schema_model()[k].src).len()
            ==> has_declared_origin((#[trigger] src_tables(info_schema_model()[k].src)[t])@),
{
    lemma_declared_origins();
    let m = info_schema_model();
    if k == 0 {
        assert(m[0] == m[0]);
    } else if k == 1 {
        assert(m[1] == m[1]);
    } else if k == 2 {
        assert(m[2] == m[2]);
    } else if k == 3 {
        assert(m[3] == m[3]);
    } else if k == 4 {
        assert(m[4] == m[4]);
    } else if k == 5 {
        assert(m[5] == m[5]);
    } else if k == 6 {
        assert(m[6] == m[6]);
    } else if k == 7 {
        assert(m[7] == m[7]);
    } else if k == 8 {
        assert(m[8] == m[8]);
    }
}

#[verifier::spinoff_prover]
proof fn lemma_table_origins_9_18(k: int)
    requires
        9 <= k < 18,
    ensures
        forall|t: int| 0 <= t < src_tables(info_schema_model()[k].src).len()
            ==> has_declared_origin((#[trigger] src_tables(info_schema_model()[k].src)[t])@),
{
    lemma_declared_origins();
    let m = info_schema_model();
    if k == 9 {
        assert(m[9] == m[9]);
    } else if k == 10 {
        assert(m[10] == m[10]);
    } else if k == 11 {
        assert(m[11] == m[11]);
    } else if k == 12 {
        assert(m[12] == m[12]);
    } else if k == 13 {
        assert(m[13] == m[13]);
    } else if k == 14 {
        assert(m[14] == m[14]);
    } else if k == 15 {
        assert(m[15] == m[15]);
    } else if k == 16 {
        assert(m[16] == m[16]);
    } else if k == 17 {
        assert(m[17] == m[17]);
    }
}

#[verifier::spinoff_prover]
proof fn lemma_table_origins_18_27(k: int)
    requires
        18 <= k < 27,
    ensures
        forall|t: int| 0 <= t < src_tables(info_schema_model()[k].src).len()
            ==> has_declared_origin((#[trigger] src_tables(info_schema_model()[k].src)[t])@),
{
    lemma_declared_origins();
    let m = info_schema_model();
    if k == 18 {
        assert(m[18] == m[18]);
    } else if k == 19 {
        assert(m[19] == m[19]);
    } else if k == 20 {
        assert(m[20] == m[20]);
    } else if k == 21 {
        assert(m[21] == m[21]);
    } else if k == 22 {
        assert(m[22] == m[22]);
    } else if k == 23 {
        assert(m[23] == m[23]);
    } else if k == 24 {
        assert(m[24] == m[24]);
    } else if k == 25 {
        assert(m[25] == m[25]);
    } else if k == 26 {
        assert(m[26] == m[26]);
    }
}

#[verifier::spinoff_prover]
proof fn lemma_table_origins_27_36(k: int)
    requires
        27 <= k < 36,
    ensures
        forall|t: int| 0 <= t < src_tables(info_schema_model()[k].src).len()
            ==> has_declared_origin((#[trigger] src_tables(info_schema_model()[k].src)[t])@),
{
    lemma_declared_origins();
    let m = info_schema_model();
    if k == 27 {
        assert(m[27] == m[27]);
    } else if k == 28 {
        assert(m[28] == m[28]);
    } else if k == 29 {
        assert(m[29] == m[29]);
    } else if k == 30 {
        assert(m[30] == m[30]);
    } else if k == 31 {
        assert(m[31] == m[31]);
    } else if k == 32 {
        assert(m[32] == m[32]);
    } else if k == 33 {
        assert(m[33] == m[33]);
    } else if k == 34 {
        assert(m[34] == m[34]);
    } else if k == 35 {
        assert(m[35] == m[35]);
    }
}

/// The pairs of columns read from sources whose tables all have declared
/// origins name tables with declared origins.
proof fn lemma_cols_pairs_origins(src: Src, cols: Seq<ColSpec>)
    requires
        forall|t: int| 0 <= t < src_tables(src).len() ==> has_declared_origin((#[trigger] src_tables(src)[t])@),
    ensures
        forall|i: int| 0 <= i < cols_pairs(src, cols).len() ==> has_declared_origin((#[trigger] cols_pairs(src, cols)[i]).0@),
    decreases cols.len(),
{
    if cols.len() > 0 {
        lemma_cols_pairs_origins(src, cols.drop_last());
        let rest = cols_pairs(src, cols.drop_last());
        let c = cols.last();
        if c.ty is None && col_owner(src, c.src@) is Some {
            match src {
                Src::Table(t) => assert(has_declared_origin(src_tables(src)[0]@)),
                Src::Join { left, right, .. } => {
                    assert(has_declared_origin(src_tables(src)[0]@));
                    assert(has_declared_origin(src_tables(src)[1]@));
                },
                Src::Own => {},
            }
            assert(has_declared_origin(col_owner(src, c.src@)->0@));
            assert forall|i: int| 0 <= i < cols_pairs(src, cols).len() implies has_declared_origin((#[trigger] cols_pairs(src, cols)[i]).0@) by {
                if i < rest.len() {
                    assert(cols_pairs(src, cols)[i] == rest[i]);
                }
            }
        }
    }
}

/// The pairs of the first tables of a schema, each of whose sources has
/// declared origins, name tables with declared origins.
proof fn lemma_schema_pairs_origins(m: Seq<TableModel>)
    requires
        forall|k: int, t: int| 0 <= k < m.len() && 0 <= t < src_tables(m[k].src).len()
            ==> has_declared_origin((#[trigger] src_tables(m[k].src)[t])@),
    ensures
        forall|i: int| 0 <= i < schema_pairs(m).len() ==> has_declared_origin((#[trigger] schema_pairs(m)[i]).0@),
    decreases m.len(),
{
    if m.len() > 0 {
        let prev = m.drop_last();
        assert forall|k: int, t: int| 0 <= k < prev.len() && 0 <= t < src_tables(prev[k].src).len()
            implies has_declared_origin((#[trigger] src_tables(prev[k].src)[t])@) by {
            assert(prev[k] == m[k]);
        }
        lemma_schema_pairs_origins(prev);
        let last = m[m.len() - 1];
        assert(last == m.last());
        assert forall|t: int| 0 <= t < src_tables(last.src).len() implies has_declared_origin((#[trigger] src_tables(last.src)[t])@) by {
            assert(has_declared_origin(src_tables(m[m.len() - 1].src)[t]@));
        }
        lemma_cols_pairs_origins(last.src, last.cols);
        let p = schema_pairs(prev);
        let c = cols_pairs(last.src, last.cols);
        assert forall|i: int| 0 <= i < schema_pairs(m).len() implies has_declared_origin((#[trigger] schema_pairs(m)[i]).0@) by {
            if i < p.len() {
                assert(schema_pairs(m)[i] == p[i]);
            } else {
                assert(schema_pairs(m)[i] == c[i - p.len()]);
            }
        }
    }
}

/// Every staging table the information schema reads has an origin, and every
/// epoch relation such an origin reads (its own, and the one it joins) is one
/// the view layer declares.
pub proof fn every_referenced_table_has_an_origin()
    ensures
        forall|i: int| 0 <= i < schema_pairs(info_schema_model()).len()
            ==> has_declared_origin((#[trigger] schema_pairs(info_schema_model())[i]).0@),
{
    let m = info_schema_model();
    assert forall|k: int, t: int| 0 <= k < m.len() && 0 <= t < src_tables(m[k].src).len()
        implies has_declared_origin((#[trigger] src_tables(m[k].src)[t])@) by {
        if k < 9 {
            lemma_table_origins_0_9(k);
        } else if k < 18 {
            lemma_table_origins_9_18(k);
        } else if k < 27 {
            lemma_table_origins_18_27(k);
        } else {
            lemma_table_origins_27_36(k);
        }
    }
    lemma_schema_pairs_origins(m);
}

/// Whether staging table `t` is read from an epoch relation.
pub open spec fn relation_backed(t: Seq<char>) -> bool {
    origin_of(t) matches Some(Origin::Relation { .. })
}

/// Whether output column `c` of a table over `src`, when it reads a staging
/// column of a relation-backed table, reads one the mapping covers.
pub open spec fn column_covered(src: Src, c: ColSpec) -> bool {
    (c.ty is None && col_owner(src, c.src@) is Some && relation_backed(col_owner(src, c.src@)->0@))
        ==> spec_epoch_expr(col_owner(src, c.src@)->0@, c.src@) is Some
}

proof fn lemma_lookup_some<V>(entries: Seq<(&'static str, V)>, key: Seq<char>, k: int)
    requires
        0 <= k < entries.len(),
        entries[k].0@ == key,
    ensures
        lookup(entries, key) is Some,
    decreases k,
{
    if k > 0 && entries[0].0@ != key {
        lemma_lookup_some(entries.drop_first(), key, k - 1);
    }
}

proof fn lemma_find_column_some(cols: Seq<crate::index::IndexColumn>, name: Seq<char>, k: int)
    requires
        0 <= k < cols.len(),
        cols[k].name@ == name,
    ensures
        find_column(cols, name) is Some,
    decreases k,
{
    if k > 0 && cols[0].name@ != name {
        lemma_find_column_some(cols.drop_first(), name, k - 1);
    }
}

proof fn lemma_find_index_table_at(m: Seq<crate::index::IndexTable>, name: Seq<char>, k: int)
    requires
        0 <= k < m.len(),
        m[k].name@ == name,
        forall|q: int| 0 <= q < k ==> (#[trigger] m[q]).name@ != name,
    ensures
        find_index_table(m, name) == Some(m[k]),
    decreases k,
{
    if k > 0 {
        assert forall|q: int| 0 <= q < k - 1 implies (#[trigger] m.drop_first()[q]).name@ != name by {
            assert(m.drop_first()[q] == m[q + 1]);
        }
        assert(m[0].name@ != name);
        lemma_find_index_table_at(m.drop_first(), name, k - 1);
    }
}

proof fn lemma_nodes_index_table()
    ensures
        find_index_table(index_tables_model(), "nodes"@) == Some(nodes_index_model()),
{
    lemma_table_name_shapes();
    let ix = index_tables_model();
    assert(ix[0].name@ == "project"@);
    assert(ix[1].name@ == "packages"@);
    assert(ix[2].name@ == "project_vars"@);
    assert(ix[3].name@ == "project_env_vars"@);
    assert(ix[4].name@ == "generation"@);
    assert(ix[5].name@ == "nodes"@);
    assert(ix[5] == nodes_index_model());
    lemma_find_index_table_at(ix, "nodes"@, 5);
}

#[verifier::spinoff_prover]
proof fn lemma_staging_tables()
    ensures
        expr_rows("nodes"@) == Some(nodes_exprs_model()),
        expr_rows("macros"@) == Some(macros_exprs_model()),
        expr_rows("docs"@) == Some(docs_exprs_model()),
        expr_rows("groups"@) == Some(groups_exprs_model()),
        expr_rows("exposures"@) == Some(exposures_exprs_model()),
        expr_rows("metrics"@) == Some(metrics_exprs_model()),
        expr_rows("unit_tests"@) == Some(unit_tests_exprs_model()),
        expr_rows("saved_queries"@) == Some(saved_queries_exprs_model()),
        expr_rows("semantic_models"@) == Some(semantic_models_exprs_model()),
        expr_rows("test_metadata"@) == Some(test_metadata_exprs_model()),
        expr_rows("time_spines"@) == Some(time_spines_exprs_model()),
        expr_rows("edges"@) == Some(edges_exprs_model()),
        expr_rows("semantic_entities"@) == Some(semantic_entities_exprs_model()),
        expr_rows("semantic_measures"@) == Some(semantic_measures_exprs_model()),
        expr_rows("semantic_dimensions"@) == Some(semantic_dimensions_exprs_model()),
        expr_rows("column_lineage"@) == Some(column_lineage_exprs_model()),
        expr_rows("invocations"@) == Some(invocations_exprs_model()),
        expr_rows("run_results"@) == Some(run_results_exprs_model()),
        expr_rows("source_freshness"@) == Some(source_freshness_exprs_model()),
        relation_backed("nodes"@),
        relation_backed("macros"@),
        relation_backed("docs"@),
        relation_backed("groups"@),
        relation_backed("exposures"@),
        relation_backed("metrics"@),
        relation_backed("unit_tests"@),
        relation_backed("saved_queries"@),
        relation_backed("semantic_models"@),
        relation_backed("test_metadata"@),
        relation_backed("time_spines"@),
        relation_backed("edges"@),
        relation_backed("semantic_entities"@),
        relation_backed("semantic_measures"@),
        relation_backed("semantic_dimensions"@),
        relation_backed("column_lineage"@),
        relation_backed("invocations"@),
        relation_backed("run_results"@),
        relation_backed("source_freshness"@),
        !relation_backed("node_columns"@),
        !relation_backed("project"@),
        !relation_backed("project_vars"@),
        !relation_backed("project_env_vars"@),
        !relation_backed("packages"@),
        !relation_backed("semantic_relationships"@),
        !relation_backed("diagnostics"@),
        !relation_backed("adapter_queries"@),
        !relation_backed("node_input_files"@),
        find_index_table(index_tables_model(), "nodes"@) == Some(nodes_index_model()),
{
    lemma_table_name_shapes();
    lemma_nodes_index_table();
}

proof fn lemma_find_column_none(cols: Seq<crate::index::IndexColumn>, name: Seq<char>)
    requires
        forall|k: int| 0 <= k < cols.len() ==> (#[trigger] cols[k]).name@ != name,
    ensures
        find_column(cols, name) is None,
    decreases cols.len(),
{
    if cols.len() > 0 {
        assert forall|k: int| 0 <= k < cols.drop_first().len() implies (#[trigger] cols.drop_first()[k]).name@ != name by {
            assert(cols.drop_first()[k] == cols[k + 1]);
        }
        lemma_find_column_none(cols.drop_first(), name);
    }
}

/// The lengths of the index `nodes` column names and of the test-metadata
/// column names, and the characters that tell apart names of one length.
proof fn lemma_column_name_shapes()
    ensures
        "access_level"@.len() == 12,
        "ai_context"@.len() == 10,
        "alias"@.len() == 5,
        "attached_node"@.len() == 13,
        "checksum"@.len() == 8,
        "classifiers"@.len() == 11,
        "column_name"@.len() == 11,
        "compiled_at"@.len() == 11,
        "compiled_code"@.len() == 13,
        "compiled_code_hash"@.len() == 18,
        "compiled_path"@.len() == 13,
        "config"@.len() == 6,
        "contract_enforced"@.len() == 17,
        "database_name"@.len() == 13,
        "deprecation_date"@.len() == 16,
        "description"@.len() == 11,
        "docs_show"@.len() == 9,
        "enabled"@.len() == 7,
        "error_if"@.len() == 8,
        "external_config"@.len() == 15,
        "extra_ctes"@.len() == 10,
        "fail_calc"@.len() == 9,
        "file_path"@.len() == 9,
        "fqn"@.len() == 3,
        "freshness"@.len() == 9,
        "full_refresh"@.len() == 12,
        "grain"@.len() == 5,
        "grain_declared"@.len() == 14,
        "grain_inferred"@.len() == 14,
        "grain_tested"@.len() == 12,
        "grants"@.len() == 6,
        "group_name"@.len() == 10,
        "identifier"@.len() == 10,
        "incremental_strategy"@.len() == 20,
        "ingested_at"@.len() == 11,
        "kwargs"@.len() == 6,
        "latest_version"@.len() == 14,
        "loaded_at_field"@.len() == 15,
        "loaded_at_query"@.len() == 15,
        "loader"@.len() == 6,
        "materialized"@.len() == 12,
        "meta"@.len() == 4,
        "name"@.len() == 4,
        "node_constraints"@.len() == 16,
        "node_language"@.len() == 13,
        "on_schema_change"@.len() == 16,
        "original_file_path"@.len() == 18,
        "package_name"@.len() == 12,
        "patch_path"@.len() == 10,
        "persist_docs"@.len() == 12,
        "post_hook"@.len() == 9,
        "pre_hook"@.len() == 8,
        "primary_key"@.len() == 11,
        "quoting"@.len() == 7,
        "raw_code"@.len() == 8,
        "raw_code_hash"@.len() == 13,
        "relation_name"@.len() == 13,
        "resource_type"@.len() == 13,
        "schema_name"@.len() == 11,
        "search_text"@.len() == 11,
        "severity"@.len() == 8,
        "source_description"@.len() == 18,
        "source_meta"@.len() == 11,
        "source_name"@.len() == 11,
        "store_failures"@.len() == 14,
        "store_failures_as"@.len() == 17,
        "table_role"@.len() == 10,
        "tags"@.len() == 4,
        "test_limit"@.len() == 10,
        "test_name"@.len() == 9,
        "test_namespace"@.len() == 14,
        "test_where"@.len() == 10,
        "time_spine"@.len() == 10,
        "unique_id"@.len() == 9,
        "unique_key"@.len() == 10,
        "version"@.len() == 7,
        "warn_if"@.len() == 7,
        "access_level"@[0] == 'a',
        "ai_context"@[0] == 'a',
        "alias"@[0] == 'a',
        "attached_node"@[0] == 'a',
        "checksum"@[0] == 'c',
        "classifiers"@[0] == 'c',
        "classifiers"@[1] == 'l',
        "column_name"@[0] == 'c',
        "column_name"@[1] == 'o',
        "column_name"@[2] == 'l',
        "compiled_at"@[0] == 'c',
        "compiled_at"@[1] == 'o',
        "compiled_at"@[2] == 'm',
        "compiled_code"@[0] == 'c',
        "compiled_code"@[9] == 'c',
        "compiled_code_hash"@[0] == 'c',
        "compiled_path"@[0] == 'c',
        "compiled_path"@[9] == 'p',
        "config"@[0] == 'c',
        "contract_enforced"@[0] == 'c',
        "database_name"@[0] == 'd',
        "deprecation_date"@[0] == 'd',
        "description"@[0] == 'd',
        "docs_show"@[0] == 'd',
        "enabled"@[0] == 'e',
        "error_if"@[0] == 'e',
        "external_config"@[0] == 'e',
        "extra_ctes"@[0] == 'e',
        "fail_calc"@[0] == 'f',
        "fail_calc"@[1] == 'a',
        "file_path"@[0] == 'f',
        "file_path"@[1] == 'i',
        "freshness"@[0] == 'f',
        "freshness"@[1] == 'r',
        "full_refresh"@[0] == 'f',
        "grain"@[0] == 'g',
        "grain_declared"@[0] == 'g',
        "grain_declared"@[6] == 'd',
        "grain_inferred"@[0] == 'g',
        "grain_inferred"@[6] == 'i',
        "grain_tested"@[0] == 'g',
        "grants"@[0] == 'g',
        "group_name"@[0] == 'g',
        "identifier"@[0] == 'i',
        "ingested_at"@[0] == 'i',
        "kwargs"@[0] == 'k',
        "latest_version"@[0] == 'l',
        "loaded_at_field"@[0] == 'l',
        "loaded_at_field"@[10] == 'f',
        "loaded_at_query"@[0] == 'l',
        "loaded_at_query"@[10] == 'q',
        "loader"@[0] == 'l',
        "materialized"@[0] == 'm',
        "meta"@[0] == 'm',
        "name"@[0] == 'n',
        "node_constraints"@[0] == 'n',
        "node_language"@[0] == 'n',
        "on_schema_change"@[0] == 'o',
        "original_file_path"@[0] == 'o',
        "package_name"@[0] == 'p',
        "package_name"@[1] == 'a',
        "patch_path"@[0] == 'p',
        "persist_docs"@[0] == 'p',
        "persist_docs"@[1] == 'e',
        "post_hook"@[0] == 'p',
        "pre_hook"@[0] == 'p',
        "primary_key"@[0] == 'p',
        "quoting"@[0] == 'q',
        "raw_code"@[0] == 'r',
        "raw_code_hash"@[0] == 'r',
        "raw_code_hash"@[1] == 'a',
        "relation_name"@[0] == 'r',
        "relation_name"@[1] == 'e',
        "relation_name"@[2] == 'l',
        "resource_type"@[0] == 'r',
        "resource_type"@[1] == 'e',
        "resource_type"@[2] == 's',
        "schema_name"@[0] == 's',
        "schema_name"@[1] == 'c',
        "search_text"@[0] == 's',
        "search_text"@[1] == 'e',
        "severity"@[0] == 's',
        "source_description"@[0] == 's',
        "source_meta"@[0] == 's',
        "source_meta"@[1] == 'o',
        "source_meta"@[7] == 'm',
        "source_name"@[0] == 's',
        "source_name"@[1] == 'o',
        "source_name"@[7] == 'n',
        "store_failures"@[0] == 's',
        "store_failures_as"@[0] == 's',
        "table_role"@[0] == 't',
        "table_role"@[1] == 'a',
        "tags"@[0] == 't',
        "test_limit"@[0] == 't',
        "test_limit"@[1] == 'e',
        "test_limit"@[5] == 'l',
        "test_name"@[0] == 't',
        "test_namespace"@[0] == 't',
        "test_where"@[0] == 't',
        "test_where"@[1] == 'e',
        "test_where"@[5] == 'w',
        "time_spine"@[0] == 't',
        "time_spine"@[1] == 'i',
        "unique_id"@[0] == 'u',
        "unique_key"@[0] == 'u',
        "version"@[0] == 'v',
        "warn_if"@[0] == 'w',
{
    reveal_strlit("access_level");
    reveal_strlit("ai_context");
    reveal_strlit("alias");
    reveal_strlit("attached_node");
    reveal_strlit("checksum");
    reveal_strlit("classifiers");
    reveal_strlit("column_name");
    reveal_strlit("compiled_at");
    reveal_strlit("compiled_code");
    reveal_strlit("compiled_code_hash");
    reveal_strlit("compiled_path");
    reveal_strlit("config");
    reveal_strlit("contract_enforced");
    reveal_strlit("database_name");
    reveal_strlit("deprecation_date");
    reveal_strlit("description");
    reveal_strlit("docs_show");
    reveal_strlit("enabled");
    reveal_strlit("error_if");
    reveal_strlit("external_config");
    reveal_strlit("extra_ctes");
    reveal_strlit("fail_calc");
    reveal_strlit("file_path");
    reveal_strlit("fqn");
    reveal_strlit("freshness");
    reveal_strlit("full_refresh");
    reveal_strlit("grain");
    reveal_strlit("grain_declared");
    reveal_strlit("grain_inferred");
    reveal_strlit("grain_tested");
    reveal_strlit("grants");
    reveal_strlit("group_name");
    reveal_strlit("identifier");
    reveal_strlit("incremental_strategy");
    reveal_strlit("ingested_at");
    reveal_strlit("kwargs");
    reveal_strlit("latest_version");
    reveal_strlit("loaded_at_field");
    reveal_strlit("loaded_at_query");
    reveal_strlit("loader");
    reveal_strlit("materialized");
    reveal_strlit("meta");
    reveal_strlit("name");
    reveal_strlit("node_constraints");
    reveal_strlit("node_language");
    reveal_strlit("on_schema_change");
    reveal_strlit("original_file_path");
    reveal_strlit("package_name");
    reveal_strlit("patch_path");
    reveal_strlit("persist_docs");
    reveal_strlit("post_hook");
    reveal_strlit("pre_hook");
    reveal_strlit("primary_key");
    reveal_strlit("quoting");
    reveal_strlit("raw_code");
    reveal_strlit("raw_code_hash");
    reveal_strlit("relation_name");
    reveal_strlit("resource_type");
    reveal_strlit("schema_name");
    reveal_strlit("search_text");
    reveal_strlit("severity");
    reveal_strlit("source_description");
    reveal_strlit("source_meta");
    reveal_strlit("source_name");
    reveal_strlit("store_failures");
    reveal_strlit("store_failures_as");
    reveal_strlit("table_role");
    reveal_strlit("tags");
    reveal_strlit("test_limit");
    reveal_strlit("test_name");
    reveal_strlit("test_namespace");
    reveal_strlit("test_where");
    reveal_strlit("time_spine");
    reveal_strlit("unique_id");
    reveal_strlit("unique_key");
    reveal_strlit("version");
    reveal_strlit("warn_if");
}

#[verifier::spinoff_prover]
#[verifier::rlimit(60)]
proof fn lemma_columns_not_in_nodes()
    ensures
        !spec_has_column("nodes"@, "test_name"@),
        !spec_has_column("nodes"@, "test_namespace"@),
        !spec_has_column("nodes"@, "kwargs"@),
        !spec_has_column("nodes"@, "column_name"@),
        !spec_has_column("nodes"@, "attached_node"@),
        !spec_has_column("nodes"@, "severity"@),
        !spec_has_column("nodes"@, "warn_if"@),
        !spec_has_column("nodes"@, "error_if"@),
        !spec_has_column("nodes"@, "fail_calc"@),
        !spec_has_column("nodes"@, "store_failures"@),
        !spec_has_column("nodes"@, "store_failures_as"@),
        !spec_has_column("nodes"@, "test_where"@),
        !spec_has_column("nodes"@, "test_limit"@),
{
    lemma_nodes_index_table();
    lemma_column_name_shapes();
    let cols = nodes_index_model().cols;
    assert forall|k: int| 0 <= k < cols.len() implies cols[k].name@ != "test_name"@ && cols[k].name@ != "test_namespace"@ && cols[k].name@ != "kwargs"@ && cols[k].name@ != "column_name"@ && cols[k].name@ != "attached_node"@ && cols[k].name@ != "severity"@ && cols[k].name@ != "warn_if"@ && cols[k].name@ != "error_if"@ && cols[k].name@ != "fail_calc"@ && cols[k].name@ != "store_failures"@ && cols[k].name@ != "store_failures_as"@ && cols[k].name@ != "test_where"@ && cols[k].name@ != "test_limit"@ by {
        if k == 0 {
            assert(cols[0].name@ == "unique_id"@);
        } else if k == 1 {
            assert(cols[1].name@ == "name"@);
        } else if k == 2 {
            assert(cols[2].name@ == "resource_type"@);
        } else if k == 3 {
            assert(cols[3].name@ == "package_name"@);
        } else if k == 4 {
            assert(cols[4].name@ == "original_file_path"@);
        } else if k == 5 {
            assert(cols[5].name@ == "alias"@);
        } else if k == 6 {
            assert(cols[6].name@ == "description"@);
        } else if k == 7 {
            assert(cols[7].name@ == "relation_name"@);
        } else if k == 8 {
            assert(cols[8].name@ == "identifier"@);
        } else if k == 9 {
            assert(cols[9].name@ == "materialized"@);
        } else if k == 10 {
            assert(cols[10].name@ == "access_level"@);
        } else if k == 11 {
            assert(cols[11].name@ == "group_name"@);
        } else if k == 12 {
            assert(cols[12].name@ == "database_name"@);
        } else if k == 13 {
            assert(cols[13].name@ == "schema_name"@);
        } else if k == 14 {
            assert(cols[14].name@ == "fqn"@);
        } else if k == 15 {
            assert(cols[15].name@ == "tags"@);
        } else if k == 16 {
            assert(cols[16].name@ == "enabled"@);
        } else if k == 17 {
            assert(cols[17].name@ == "source_name"@);
        } else if k == 18 {
            assert(cols[18].name@ == "checksum"@);
        } else if k == 19 {
            assert(cols[19].name@ == "raw_code"@);
        } else if k == 20 {
            assert(cols[20].name@ == "source_description"@);
        } else if k == 21 {
            assert(cols[21].name@ == "loader"@);
        } else if k == 22 {
            assert(cols[22].name@ == "loaded_at_field"@);
        } else if k == 23 {
            assert(cols[23].name@ == "patch_path"@);
        } else if k == 24 {
            assert(cols[24].name@ == "deprecation_date"@);
        } else if k == 25 {
            assert(cols[25].name@ == "meta"@);
        } else if k == 26 {
            assert(cols[26].name@ == "version"@);
        } else if k == 27 {
            assert(cols[27].name@ == "latest_version"@);
        } else if k == 28 {
            assert(cols[28].name@ == "config"@);
        } else if k == 29 {
            assert(cols[29].name@ == "contract_enforced"@);
        } else if k == 30 {
            assert(cols[30].name@ == "primary_key"@);
        } else if k == 31 {
            assert(cols[31].name@ == "file_path"@);
        } else if k == 32 {
            assert(cols[32].name@ == "compiled_code"@);
        } else if k == 33 {
            assert(cols[33].name@ == "compiled_code_hash"@);
        } else if k == 34 {
            assert(cols[34].name@ == "compiled_path"@);
        } else if k == 35 {
            assert(cols[35].name@ == "table_role"@);
        } else if k == 36 {
            assert(cols[36].name@ == "grain"@);
        } else if k == 37 {
            assert(cols[37].name@ == "grain_declared"@);
        } else if k == 38 {
            assert(cols[38].name@ == "grain_tested"@);
        } else if k == 39 {
            assert(cols[39].name@ == "classifiers"@);
        } else if k == 40 {
            assert(cols[40].name@ == "docs_show"@);
        } else if k == 41 {
            assert(cols[41].name@ == "grain_inferred"@);
        } else if k == 42 {
            assert(cols[42].name@ == "node_language"@);
        } else if k == 43 {
            assert(cols[43].name@ == "incremental_strategy"@);
        } else if k == 44 {
            assert(cols[44].name@ == "on_schema_change"@);
        } else if k == 45 {
            assert(cols[45].name@ == "unique_key"@);
        } else if k == 46 {
            assert(cols[46].name@ == "full_refresh"@);
        } else if k == 47 {
            assert(cols[47].name@ == "persist_docs"@);
        } else if k == 48 {
            assert(cols[48].name@ == "pre_hook"@);
        } else if k == 49 {
            assert(cols[49].name@ == "post_hook"@);
        } else if k == 50 {
            assert(cols[50].name@ == "grants"@);
        } else if k == 51 {
            assert(cols[51].name@ == "node_constraints"@);
        } else if k == 52 {
            assert(cols[52].name@ == "time_spine"@);
        } else if k == 53 {
            assert(cols[53].name@ == "ai_context"@);
        } else if k == 54 {
            assert(cols[54].name@ == "loaded_at_query"@);
        } else if k == 55 {
            assert(cols[55].name@ == "freshness"@);
        } else if k == 56 {
            assert(cols[56].name@ == "external_config"@);
        } else if k == 57 {
            assert(cols[57].name@ == "source_meta"@);
        } else if k == 58 {
            assert(cols[58].name@ == "quoting"@);
        } else if k == 59 {
            assert(cols[59].name@ == "extra_ctes"@);
        } else if k == 60 {
            assert(cols[60].name@ == "compiled_at"@);
        } else if k == 61 {
            assert(cols[61].name@ == "raw_code_hash"@);
        } else if k == 62 {
            assert(cols[62].name@ == "search_text"@);
        } else if k == 63 {
            assert(cols[63].name@ == "ingested_at"@);
        }
    }
    lemma_find_column_none(cols, "test_name"@);
    lemma_find_column_none(cols, "test_namespace"@);
    lemma_find_column_none(cols, "kwargs"@);
    lemma_find_column_none(cols, "column_name"@);
    lemma_find_column_none(cols, "attached_node"@);
    lemma_find_column_none(cols, "severity"@);
    lemma_find_column_none(cols, "warn_if"@);
    lemma_find_column_none(cols, "error_if"@);
    lemma_find_column_none(cols, "fail_calc"@);
    lemma_find_column_none(cols, "store_failures"@);
    lemma_find_column_none(cols, "store_failures_as"@);
    lemma_find_column_none(cols, "test_where"@);
    lemma_find_column_none(cols, "test_limit"@);
}

#[verifier::spinoff_prover]
proof fn lemma_covered_models()
    ensures
        forall|j: int| 0 <= j < info_schema_model()[4].cols.len()
            ==> column_covered(info_schema_model()[4].src, #[trigger] info_schema_model()[4].cols[j]),
{
    lemma_staging_tables();
    let t = info_schema_model()[4];
    let ex = nodes_exprs_model();
    assert forall|j: int| 0 <= j < t.cols.len() implies column_covered(t.src, #[trigger] t.cols[j]) by {
        if j == 0 {
            lemma_lookup_some(ex, t.cols[0].src@, 0);
        } else if j == 1 {
            lemma_lookup_some(ex, t.cols[1].src@, 1);
        } else if j == 2 {
            lemma_lookup_some(ex, t.cols[2].src@, 2);
        } else if j == 3 {
            lemma_lookup_some(ex, t.cols[3].src@, 3);
        } else if j == 4 {
            lemma_lookup_some(ex, t.cols[4].src@, 4);
        } else if j == 5 {
            lemma_lookup_some(ex, t.cols[5].src@, 14);
        } else if j == 6 {
            lemma_lookup_some(ex, t.cols[6].src@, 5);
        } else if j == 7 {
            lemma_lookup_some(ex, t.cols[7].src@, 6);
        } else if j == 8 {
            lemma_lookup_some(ex, t.cols[8].src@, 43);
        } else if j == 9 {
            lemma_lookup_some(ex, t.cols[9].src@, 20);
        } else if j == 10 {
            lemma_lookup_some(ex, t.cols[10].src@, 12);
        } else if j == 11 {
            lemma_lookup_some(ex, t.cols[11].src@, 13);
        } else if j == 12 {
            lemma_lookup_some(ex, t.cols[12].src@, 7);
        } else if j == 13 {
            lemma_lookup_some(ex, t.cols[13].src@, 8);
        } else if j == 14 {
            lemma_lookup_some(ex, t.cols[14].src@, 16);
        } else if j == 15 {
            lemma_lookup_some(ex, t.cols[15].src@, 9);
        } else if j == 16 {
            lemma_lookup_some(ex, t.cols[16].src@, 44);
        } else if j == 17 {
            lemma_lookup_some(ex, t.cols[17].src@, 45);
        } else if j == 18 {
            lemma_lookup_some(ex, t.cols[18].src@, 46);
        } else if j == 19 {
            lemma_lookup_some(ex, t.cols[19].src@, 47);
        } else if j == 20 {
            lemma_lookup_some(ex, t.cols[20].src@, 48);
        } else if j == 21 {
            lemma_lookup_some(ex, t.cols[21].src@, 49);
        } else if j == 22 {
            lemma_lookup_some(ex, t.cols[22].src@, 50);
        } else if j == 23 {
            lemma_lookup_some(ex, t.cols[23].src@, 51);
        } else if j == 24 {
            lemma_lookup_some(ex, t.cols[24].src@, 29);
        } else if j == 25 {
            lemma_lookup_some(ex, t.cols[25].src@, 10);
        } else if j == 26 {
            lemma_lookup_some(ex, t.cols[26].src@, 11);
        } else if j == 27 {
            lemma_lookup_some(ex, t.cols[27].src@, 30);
        } else if j == 28 {
            lemma_lookup_some(ex, t.cols[28].src@, 27);
        } else if j == 29 {
            lemma_lookup_some(ex, t.cols[29].src@, 28);
        } else if j == 30 {
            lemma_lookup_some(ex, t.cols[30].src@, 25);
        } else if j == 31 {
            lemma_lookup_some(ex, t.cols[31].src@, 52);
        } else if j == 32 {
            lemma_lookup_some(ex, t.cols[32].src@, 31);
        } else if j == 33 {
            lemma_lookup_some(ex, t.cols[33].src@, 41);
        } else if j == 34 {
            lemma_lookup_some(ex, t.cols[34].src@, 24);
        } else if j == 35 {
            lemma_lookup_some(ex, t.cols[35].src@, 53);
        } else if j == 36 {
            lemma_lookup_some(ex, t.cols[36].src@, 15);
        } else if j == 37 {
            lemma_lookup_some(ex, t.cols[37].src@, 40);
        } else if j == 38 {
            lemma_lookup_some(ex, t.cols[38].src@, 26);
        } else if j == 39 {
            lemma_lookup_some(ex, t.cols[39].src@, 54);
        } else if j == 40 {
            lemma_lookup_some(ex, t.cols[40].src@, 33);
        } else if j == 41 {
            lemma_lookup_some(ex, t.cols[41].src@, 35);
        } else if j == 42 {
            lemma_lookup_some(ex, t.cols[42].src@, 63);
        } else if j == 43 {
            lemma_lookup_some(ex, t.cols[43].src@, 37);
        } else if j == 44 {
            lemma_lookup_some(ex, t.cols[44].src@, 38);
        } else if j == 45 {
            lemma_lookup_some(ex, t.cols[45].src@, 39);
        } else if j == 46 {
            lemma_lookup_some(ex, t.cols[46].src@, 42);
        } else if j == 47 {
            lemma_lookup_some(ex, t.cols[47].src@, 36);
        } else if j == 48 {
            lemma_lookup_some(ex, t.cols[48].src@, 18);
        }
    }
}

#[verifier::spinoff_prover]
proof fn lemma_covered_seeds()
    ensures
        forall|j: int| 0 <= j < info_schema_model()[5].cols.len()
            ==> column_covered(info_schema_model()[5].src, #[trigger] info_schema_model()[5].cols[j]),
{
    lemma_staging_tables();
    let t = info_schema_model()[5];
    let ex = nodes_exprs_model();
    assert forall|j: int| 0 <= j < t.cols.len() implies column_covered(t.src, #[trigger] t.cols[j]) by {
        if j == 0 {
            lemma_lookup_some(ex, t.cols[0].src@, 0);
        } else if j == 1 {
            lemma_lookup_some(ex, t.cols[1].src@, 1);
        } else if j == 2 {
            lemma_lookup_some(ex, t.cols[2].src@, 2);
        } else if j == 3 {
            lemma_lookup_some(ex, t.cols[3].src@, 3);
        } else if j == 4 {
            lemma_lookup_some(ex, t.cols[4].src@, 4);
        } else if j == 5 {
            lemma_lookup_some(ex, t.cols[5].src@, 14);
        } else if j == 6 {
            lemma_lookup_some(ex, t.cols[6].src@, 5);
        } else if j == 7 {
            lemma_lookup_some(ex, t.cols[7].src@, 6);
        } else if j == 8 {
            lemma_lookup_some(ex, t.cols[8].src@, 43);
        } else if j == 9 {
            lemma_lookup_some(ex, t.cols[9].src@, 20);
        } else if j == 10 {
            lemma_lookup_some(ex, t.cols[10].src@, 12);
        } else if j == 11 {
            lemma_lookup_some(ex, t.cols[11].src@, 13);
        } else if j == 12 {
            lemma_lookup_some(ex, t.cols[12].src@, 7);
        } else if j == 13 {
            lemma_lookup_some(ex, t.cols[13].src@, 8);
        } else if j == 14 {
            lemma_lookup_some(ex, t.cols[14].src@, 16);
        } else if j == 15 {
            lemma_lookup_some(ex, t.cols[15].src@, 9);
        } else if j == 16 {
            lemma_lookup_some(ex, t.cols[16].src@, 44);
        } else if j == 17 {
            lemma_lookup_some(ex, t.cols[17].src@, 45);
        } else if j == 18 {
            lemma_lookup_some(ex, t.cols[18].src@, 46);
        } else if j == 19 {
            lemma_lookup_some(ex, t.cols[19].src@, 47);
        } else if j == 20 {
            lemma_lookup_some(ex, t.cols[20].src@, 48);
        } else if j == 21 {
            lemma_lookup_some(ex, t.cols[21].src@, 49);
        } else if j == 22 {
            lemma_lookup_some(ex, t.cols[22].src@, 50);
        } else if j == 23 {
            lemma_lookup_some(ex, t.cols[23].src@, 51);
        } else if j == 24 {
            lemma_lookup_some(ex, t.cols[24].src@, 29);
        } else if j == 25 {
            lemma_lookup_some(ex, t.cols[25].src@, 10);
        } else if j == 26 {
            lemma_lookup_some(ex, t.cols[26].src@, 11);
        } else if j == 27 {
            lemma_lookup_some(ex, t.cols[27].src@, 30);
        } else if j == 28 {
            lemma_lookup_some(ex, t.cols[28].src@, 27);
        } else if j == 29 {
            lemma_lookup_some(ex, t.cols[29].src@, 28);
        } else if j == 30 {
            lemma_lookup_some(ex, t.cols[30].src@, 25);
        } else if j == 31 {
            lemma_lookup_some(ex, t.cols[31].src@, 52);
        } else if j == 32 {
            lemma_lookup_some(ex, t.cols[32].src@, 31);
        } else if j == 33 {
            lemma_lookup_some(ex, t.cols[33].src@, 41);
        } else if j == 34 {
            lemma_lookup_some(ex, t.cols[34].src@, 24);
        } else if j == 35 {
            lemma_lookup_some(ex, t.cols[35].src@, 53);
        } else if j == 36 {
            lemma_lookup_some(ex, t.cols[36].src@, 15);
        } else if j == 37 {
            lemma_lookup_some(ex, t.cols[37].src@, 40);
        } else if j == 38 {
            lemma_lookup_some(ex, t.cols[38].src@, 26);
        } else if j == 39 {
            lemma_lookup_some(ex, t.cols[39].src@, 54);
        } else if j == 40 {
            lemma_lookup_some(ex, t.cols[40].src@, 33);
        } else if j == 41 {
            lemma_lookup_some(ex, t.cols[41].src@, 35);
        } else if j == 42 {
            lemma_lookup_some(ex, t.cols[42].src@, 63);
        } else if j == 43 {
            lemma_lookup_some(ex, t.cols[43].src@, 37);
        } else if j == 44 {
            lemma_lookup_some(ex, t.cols[44].src@, 38);
        } else if j == 45 {
            lemma_lookup_some(ex, t.cols[45].src@, 39);
        } else if j == 46 {
            lemma_lookup_some(ex, t.cols[46].src@, 42);
        } else if j == 47 {
            lemma_lookup_some(ex, t.cols[47].src@, 36);
        } else if j == 48 {
            lemma_lookup_some(ex, t.cols[48].src@, 18);
        }
    }
}

#[verifier::spinoff_prover]
proof fn lemma_covered_snapshots()
    ensures
        forall|j: int| 0 <= j < info_schema_model()[6].cols.len()
            ==> column_covered(info_schema_model()[6].src, #[trigger] info_schema_model()[6].cols[j]),
{
    lemma_staging_tables();
    let t = info_schema_model()[6];
    let ex = nodes_exprs_model();
    assert forall|j: int| 0 <= j < t.cols.len() implies column_covered(t.src, #[trigger] t.cols[j]) by {
        if j == 0 {
            lemma_lookup_some(ex, t.cols[0].src@, 0);
        } else if j == 1 {
            lemma_lookup_some(ex, t.cols[1].src@, 1);
        } else if j == 2 {
            lemma_lookup_some(ex, t.cols[2].src@, 2);
        } else if j == 3 {
            lemma_lookup_some(ex, t.cols[3].src@, 3);
        } else if j == 4 {
            lemma_lookup_some(ex, t.cols[4].src@, 4);
        } else if j == 5 {
            lemma_lookup_some(ex, t.cols[5].src@, 14);
        } else if j == 6 {
            lemma_lookup_some(ex, t.cols[6].src@, 5);
        } else if j == 7 {
            lemma_lookup_some(ex, t.cols[7].src@, 6);
        } else if j == 8 {
            lemma_lookup_some(ex, t.cols[8].src@, 43);
        } else if j == 9 {
            lemma_lookup_some(ex, t.cols[9].src@, 20);
        } else if j == 10 {
            lemma_lookup_some(ex, t.cols[10].src@, 12);
        } else if j == 11 {
            lemma_lookup_some(ex, t.cols[11].src@, 13);
        } else if j == 12 {
            lemma_lookup_some(ex, t.cols[12].src@, 7);
        } else if j == 13 {
            lemma_lookup_some(ex, t.cols[13].src@, 8);
        } else if j == 14 {
            lemma_lookup_some(ex, t.cols[14].src@, 16);
        } else if j == 15 {
            lemma_lookup_some(ex, t.cols[15].src@, 9);
        } else if j == 16 {
            lemma_lookup_some(ex, t.cols[16].src@, 44);
        } else if j == 17 {
            lemma_lookup_some(ex, t.cols[17].src@, 45);
        } else if j == 18 {
            lemma_lookup_some(ex, t.cols[18].src@, 46);
        } else if j == 19 {
            lemma_lookup_some(ex, t.cols[19].src@, 47);
        } else if j == 20 {
            lemma_lookup_some(ex, t.cols[20].src@, 48);
        } else if j == 21 {
            lemma_lookup_some(ex, t.cols[21].src@, 49);
        } else if j == 22 {
            lemma_lookup_some(ex, t.cols[22].src@, 50);
        } else if j == 23 {
            lemma_lookup_some(ex, t.cols[23].src@, 51);
        } else if j == 24 {
            lemma_lookup_some(ex, t.cols[24].src@, 29);
        } else if j == 25 {
            lemma_lookup_some(ex, t.cols[25].src@, 10);
        } else if j == 26 {
            lemma_lookup_some(ex, t.cols[26].src@, 11);
        } else if j == 27 {
            lemma_lookup_some(ex, t.cols[27].src@, 30);
        } else if j == 28 {
            lemma_lookup_some(ex, t.cols[28].src@, 27);
        } else if j == 29 {
            lemma_lookup_some(ex, t.cols[29].src@, 28);
        } else if j == 30 {
            lemma_lookup_some(ex, t.cols[30].src@, 25);
        } else if j == 31 {
            lemma_lookup_some(ex, t.cols[31].src@, 52);
        } else if j == 32 {
            lemma_lookup_some(ex, t.cols[32].src@, 31);
        } else if j == 33 {
            lemma_lookup_some(ex, t.cols[33].src@, 41);
        } else if j == 34 {
            lemma_lookup_some(ex, t.cols[34].src@, 24);
        } else if j == 35 {
            lemma_lookup_some(ex, t.cols[35].src@, 53);
        } else if j == 36 {
            lemma_lookup_some(ex, t.cols[36].src@, 15);
        } else if j == 37 {
            lemma_lookup_some(ex, t.cols[37].src@, 40);
        } else if j == 38 {
            lemma_lookup_some(ex, t.cols[38].src@, 26);
        } else if j == 39 {
            lemma_lookup_some(ex, t.cols[39].src@, 54);
        } else if j == 40 {
            lemma_lookup_some(ex, t.cols[40].src@, 33);
        } else if j == 41 {
            lemma_lookup_some(ex, t.cols[41].src@, 35);
        } else if j == 42 {
            lemma_lookup_some(ex, t.cols[42].src@, 63);
        } else if j == 43 {
            lemma_lookup_some(ex, t.cols[43].src@, 37);
        } else if j == 44 {
            lemma_lookup_some(ex, t.cols[44].src@, 38);
        } else if j == 45 {
            lemma_lookup_some(ex, t.cols[45].src@, 39);
        } else if j == 46 {
            lemma_lookup_some(ex, t.cols[46].src@, 42);
        } else if j == 47 {
            lemma_lookup_some(ex, t.cols[47].src@, 36);
        } else if j == 48 {
            lemma_lookup_some(ex, t.cols[48].src@, 18);
        }
    }
}

#[verifier::spinoff_prover]
proof fn lemma_covered_functions()
    ensures
        forall|j: int| 0 <= j < info_schema_model()[7].cols.len()
            ==> column_covered(info_schema_model()[7].src, #[trigger] info_schema_model()[7].cols[j]),
{
    lemma_staging_tables();
    let t = info_schema_model()[7];
    let ex = nodes_exprs_model();
    assert forall|j: int| 0 <= j < t.cols.len() implies column_covered(t.src, #[trigger] t.cols[j]) by {
        if j == 0 {
            lemma_lookup_some(ex, t.cols[0].src@, 0);
        } else if j == 1 {
            lemma_lookup_some(ex, t.cols[1].src@, 1);
        } else if j == 2 {
            lemma_lookup_some(ex, t.cols[2].src@, 2);
        } else if j == 3 {
            lemma_lookup_some(ex, t.cols[3].src@, 3);
        } else if j == 4 {
            lemma_lookup_some(ex, t.cols[4].src@, 4);
        } else if j == 5 {
            lemma_lookup_some(ex, t.cols[5].src@, 14);
        } else if j == 6 {
            lemma_lookup_some(ex, t.cols[6].src@, 5);
        } else if j == 7 {
            lemma_lookup_some(ex, t.cols[7].src@, 6);
        } else if j == 8 {
            lemma_lookup_some(ex, t.cols[8].src@, 43);
        } else if j == 9 {
            lemma_lookup_some(ex, t.cols[9].src@, 20);
        } else if j == 10 {
            lemma_lookup_some(ex, t.cols[10].src@, 12);
        } else if j == 11 {
            lemma_lookup_some(ex, t.cols[11].src@, 13);
        } else if j == 12 {
            lemma_lookup_some(ex, t.cols[12].src@, 7);
        } else if j == 13 {
            lemma_lookup_some(ex, t.cols[13].src@, 8);
        } else if j == 14 {
            lemma_lookup_some(ex, t.cols[14].src@, 16);
        } else if j == 15 {
            lemma_lookup_some(ex, t.cols[15].src@, 9);
        } else if j == 16 {
            lemma_lookup_some(ex, t.cols[16].src@, 44);
        } else if j == 17 {
            lemma_lookup_some(ex, t.cols[17].src@, 45);
        } else if j == 18 {
            lemma_lookup_some(ex, t.cols[18].src@, 46);
        } else if j == 19 {
            lemma_lookup_some(ex, t.cols[19].src@, 47);
        } else if j == 20 {
            lemma_lookup_some(ex, t.cols[20].src@, 48);
        } else if j == 21 {
            lemma_lookup_some(ex, t.cols[21].src@, 49);
        } else if j == 22 {
            lemma_lookup_some(ex, t.cols[22].src@, 50);
        } else if j == 23 {
            lemma_lookup_some(ex, t.cols[23].src@, 51);
        } else if j == 24 {
            lemma_lookup_some(ex, t.cols[24].src@, 29);
        } else if j == 25 {
            lemma_lookup_some(ex, t.cols[25].src@, 10);
        } else if j == 26 {
            lemma_lookup_some(ex, t.cols[26].src@, 11);
        } else if j == 27 {
            lemma_lookup_some(ex, t.cols[27].src@, 30);
        } else if j == 28 {
            lemma_lookup_some(ex, t.cols[28].src@, 27);
        } else if j == 29 {
            lemma_lookup_some(ex, t.cols[29].src@, 28);
        } else if j == 30 {
            lemma_lookup_some(ex, t.cols[30].src@, 25);
        } else if j == 31 {
            lemma_lookup_some(ex, t.cols[31].src@, 52);
        } else if j == 32 {
            lemma_lookup_some(ex, t.cols[32].src@, 31);
        } else if j == 33 {
            lemma_lookup_some(ex, t.cols[33].src@, 41);
        } else if j == 34 {
            lemma_lookup_some(ex, t.cols[34].src@, 24);
        } else if j == 35 {
            lemma_lookup_some(ex, t.cols[35].src@, 53);
        } else if j == 36 {
            lemma_lookup_some(ex, t.cols[36].src@, 15);
        } else if j == 37 {
            lemma_lookup_some(ex, t.cols[37].src@, 40);
        } else if j == 38 {
            lemma_lookup_some(ex, t.cols[38].src@, 26);
        } else if j == 39 {
            lemma_lookup_some(ex, t.cols[39].src@, 54);
        } else if j == 40 {
            lemma_lookup_some(ex, t.cols[40].src@, 33);
        } else if j == 41 {
            lemma_lookup_some(ex, t.cols[41].src@, 35);
        } else if j == 42 {
            lemma_lookup_some(ex, t.cols[42].src@, 63);
        } else if j == 43 {
            lemma_lookup_some(ex, t.cols[43].src@, 37);
        } else if j == 44 {
            lemma_lookup_some(ex, t.cols[44].src@, 38);
        } else if j == 45 {
            lemma_lookup_some(ex, t.cols[45].src@, 39);
        } else if j == 46 {
            lemma_lookup_some(ex, t.cols[46].src@, 42);
        } else if j == 47 {
            lemma_lookup_some(ex, t.cols[47].src@, 36);
        } else if j == 48 {
            lemma_lookup_some(ex, t.cols[48].src@, 18);
        }
    }
}

#[verifier::spinoff_prover]
proof fn lemma_covered_analyses()
    ensures
        forall|j: int| 0 <= j < info_schema_model()[8].cols.len()
            ==> column_covered(info_schema_model()[8].src, #[trigger] info_schema_model()[8].cols[j]),
{
    lemma_staging_tables();
    let t = info_schema_model()[8];
    let ex = nodes_exprs_model();
    assert forall|j: int| 0 <= j < t.cols.len() implies column_covered(t.src, #[trigger] t.cols[j]) by {
        if j == 0 {
            lemma_lookup_some(ex, t.cols[0].src@, 0);
        } else if j == 1 {
            lemma_lookup_some(ex, t.cols[1].src@, 1);
        } else if j == 2 {
            lemma_lookup_some(ex, t.cols[2].src@, 2);
        } else if j == 3 {
            lemma_lookup_some(ex, t.cols[3].src@, 3);
        } else if j == 4 {
            lemma_lookup_some(ex, t.cols[4].src@, 4);
        } else if j == 5 {
            lemma_lookup_some(ex, t.cols[5].src@, 14);
        } else if j == 6 {
            lemma_lookup_some(ex, t.cols[6].src@, 5);
        } else if j == 7 {
            lemma_lookup_some(ex, t.cols[7].src@, 6);
        } else if j == 8 {
            lemma_lookup_some(ex, t.cols[8].src@, 43);
        } else if j == 9 {
            lemma_lookup_some(ex, t.cols[9].src@, 20);
        } else if j == 10 {
            lemma_lookup_some(ex, t.cols[10].src@, 12);
        } else if j == 11 {
            lemma_lookup_some(ex, t.cols[11].src@, 13);
        } else if j == 12 {
            lemma_lookup_some(ex, t.cols[12].src@, 7);
        } else if j == 13 {
            lemma_lookup_some(ex, t.cols[13].src@, 8);
        } else if j == 14 {
            lemma_lookup_some(ex, t.cols[14].src@, 16);
        } else if j == 15 {
            lemma_lookup_some(ex, t.cols[15].src@, 9);
        } else if j == 16 {
            lemma_lookup_some(ex, t.cols[16].src@, 44);
        } else if j == 17 {
            lemma_lookup_some(ex, t.cols[17].src@, 45);
        } else if j == 18 {
            lemma_lookup_some(ex, t.cols[18].src@, 46);
        } else if j == 19 {
            lemma_lookup_some(ex, t.cols[19].src@, 47);
        } else if j == 20 {
            lemma_lookup_some(ex, t.cols[20].src@, 48);
        } else if j == 21 {
            lemma_lookup_some(ex, t.cols[21].src@, 49);
        } else if j == 22 {
            lemma_lookup_some(ex, t.cols[22].src@, 50);
        } else if j == 23 {
            lemma_lookup_some(ex, t.cols[23].src@, 51);
        } else if j == 24 {
            lemma_lookup_some(ex, t.cols[24].src@, 29);
        } else if j == 25 {
            lemma_lookup_some(ex, t.cols[25].src@, 10);
        } else if j == 26 {
            lemma_lookup_some(ex, t.cols[26].src@, 11);
        } else if j == 27 {
            lemma_lookup_some(ex, t.cols[27].src@, 30);
        } else if j == 28 {
            lemma_lookup_some(ex, t.cols[28].src@, 27);
        } else if j == 29 {
            lemma_lookup_some(ex, t.cols[29].src@, 28);
        } else if j == 30 {
            lemma_lookup_some(ex, t.cols[30].src@, 25);
        } else if j == 31 {
            lemma_lookup_some(ex, t.cols[31].src@, 52);
        } else if j == 32 {
            lemma_lookup_some(ex, t.cols[32].src@, 31);
        } else if j == 33 {
            lemma_lookup_some(ex, t.cols[33].src@, 41);
        } else if j == 34 {
            lemma_lookup_some(ex, t.cols[34].src@, 24);
        } else if j == 35 {
            lemma_lookup_some(ex, t.cols[35].src@, 53);
        } else if j == 36 {
            lemma_lookup_some(ex, t.cols[36].src@, 15);
        } else if j == 37 {
            lemma_lookup_some(ex, t.cols[37].src@, 40);
        } else if j == 38 {
            lemma_lookup_some(ex, t.cols[38].src@, 26);
        } else if j == 39 {
            lemma_lookup_some(ex, t.cols[39].src@, 54);
        } else if j == 40 {
            lemma_lookup_some(ex, t.cols[40].src@, 33);
        } else if j == 41 {
            lemma_lookup_some(ex, t.cols[41].src@, 35);
        } else if j == 42 {
            lemma_lookup_some(ex, t.cols[42].src@, 63);
        } else if j == 43 {
            lemma_lookup_some(ex, t.cols[43].src@, 37);
        } else if j == 44 {
            lemma_lookup_some(ex, t.cols[44].src@, 38);
        } else if j == 45 {
            lemma_lookup_some(ex, t.cols[45].src@, 39);
        } else if j == 46 {
            lemma_lookup_some(ex, t.cols[46].src@, 42);
        } else if j == 47 {
            lemma_lookup_some(ex, t.cols[47].src@, 36);
        } else if j == 48 {
            lemma_lookup_some(ex, t.cols[48].src@, 18);
        }
    }
}

#[verifier::spinoff_prover]
proof fn lemma_covered_hooks()
    ensures
        forall|j: int| 0 <= j < info_schema_model()[9].cols.len()
            ==> column_covered(info_schema_model()[9].src, #[trigger] info_schema_model()[9].cols[j]),
{
    lemma_staging_tables();
    let t = info_schema_model()[9];
    let ex = nodes_exprs_model();
    assert forall|j: int| 0 <= j < t.cols.len() implies column_covered(t.src, #[trigger] t.cols[j]) by {
        if j == 0 {
            lemma_lookup_some(ex, t.cols[0].src@, 0);
        } else if j == 1 {
            lemma_lookup_some(ex, t.cols[1].src@, 1);
        } else if j == 2 {
            lemma_lookup_some(ex, t.cols[2].src@, 2);
        } else if j == 3 {
            lemma_lookup_some(ex, t.cols[3].src@, 3);
        } else if j == 4 {
            lemma_lookup_some(ex, t.cols[4].src@, 4);
        } else if j == 5 {
            lemma_lookup_some(ex, t.cols[5].src@, 14);
        } else if j == 6 {
            lemma_lookup_some(ex, t.cols[6].src@, 5);
        } else if j == 7 {
            lemma_lookup_some(ex, t.cols[7].src@, 6);
        } else if j == 8 {
            lemma_lookup_some(ex, t.cols[8].src@, 43);
        } else if j == 9 {
            lemma_lookup_some(ex, t.cols[9].src@, 20);
        } else if j == 10 {
            lemma_lookup_some(ex, t.cols[10].src@, 12);
        } else if j == 11 {
            lemma_lookup_some(ex, t.cols[11].src@, 13);
        } else if j == 12 {
            lemma_lookup_some(ex, t.cols[12].src@, 7);
        } else if j == 13 {
            lemma_lookup_some(ex, t.cols[13].src@, 8);
        } else if j == 14 {
            lemma_lookup_some(ex, t.cols[14].src@, 16);
        } else if j == 15 {
            lemma_lookup_some(ex, t.cols[15].src@, 9);
        } else if j == 16 {
            lemma_lookup_some(ex, t.cols[16].src@, 44);
        } else if j == 17 {
            lemma_lookup_some(ex, t.cols[17].src@, 45);
        } else if j == 18 {
            lemma_lookup_some(ex, t.cols[18].src@, 46);
        } else if j == 19 {
            lemma_lookup_some(ex, t.cols[19].src@, 47);
        } else if j == 20 {
            lemma_lookup_some(ex, t.cols[20].src@, 48);
        } else if j == 21 {
            lemma_lookup_some(ex, t.cols[21].src@, 49);
        } else if j == 22 {
            lemma_lookup_some(ex, t.cols[22].src@, 50);
        } else if j == 23 {
            lemma_lookup_some(ex, t.cols[23].src@, 51);
        } else if j == 24 {
            lemma_lookup_some(ex, t.cols[24].src@, 29);
        } else if j == 25 {
            lemma_lookup_some(ex, t.cols[25].src@, 10);
        } else if j == 26 {
            lemma_lookup_some(ex, t.cols[26].src@, 11);
        } else if j == 27 {
            lemma_lookup_some(ex, t.cols[27].src@, 30);
        } else if j == 28 {
            lemma_lookup_some(ex, t.cols[28].src@, 27);
        } else if j == 29 {
            lemma_lookup_some(ex, t.cols[29].src@, 28);
        } else if j == 30 {
            lemma_lookup_some(ex, t.cols[30].src@, 25);
        } else if j == 31 {
            lemma_lookup_some(ex, t.cols[31].src@, 52);
        } else if j == 32 {
            lemma_lookup_some(ex, t.cols[32].src@, 31);
        } else if j == 33 {
            lemma_lookup_some(ex, t.cols[33].src@, 41);
        } else if j == 34 {
            lemma_lookup_some(ex, t.cols[34].src@, 24);
        } else if j == 35 {
            lemma_lookup_some(ex, t.cols[35].src@, 53);
        } else if j == 36 {
            lemma_lookup_some(ex, t.cols[36].src@, 15);
        } else if j == 37 {
            lemma_lookup_some(ex, t.cols[37].src@, 40);
        } else if j == 38 {
            lemma_lookup_some(ex, t.cols[38].src@, 26);
        } else if j == 39 {
            lemma_lookup_some(ex, t.cols[39].src@, 54);
        } else if j == 40 {
            lemma_lookup_some(ex, t.cols[40].src@, 33);
        } else if j == 41 {
            lemma_lookup_some(ex, t.cols[41].src@, 35);
        } else if j == 42 {
            lemma_lookup_some(ex, t.cols[42].src@, 63);
        } else if j == 43 {
            lemma_lookup_some(ex, t.cols[43].src@, 37);
        } else if j == 44 {
            lemma_lookup_some(ex, t.cols[44].src@, 38);
        } else if j == 45 {
            lemma_lookup_some(ex, t.cols[45].src@, 39);
        } else if j == 46 {
            lemma_lookup_some(ex, t.cols[46].src@, 42);
        } else if j == 47 {
            lemma_lookup_some(ex, t.cols[47].src@, 36);
        } else if j == 48 {
            lemma_lookup_some(ex, t.cols[48].src@, 18);
        }
    }
}

#[verifier::spinoff_prover]
proof fn lemma_covered_sources()
    ensures
        forall|j: int| 0 <= j < info_schema_model()[10].cols.len()
            ==> column_covered(info_schema_model()[10].src, #[trigger] info_schema_model()[10].cols[j]),
{
    lemma_staging_tables();
    let t = info_schema_model()[10];
    let ex = nodes_exprs_model();
    assert forall|j: int| 0 <= j < t.cols.len() implies column_covered(t.src, #[trigger] t.cols[j]) by {
        if j == 0 {
            lemma_lookup_some(ex, t.cols[0].src@, 0);
        } else if j == 1 {
            lemma_lookup_some(ex, t.cols[1].src@, 1);
        } else if j == 2 {
            lemma_lookup_some(ex, t.cols[2].src@, 2);
        } else if j == 3 {
            lemma_lookup_some(ex, t.cols[3].src@, 3);
        } else if j == 4 {
            lemma_lookup_some(ex, t.cols[4].src@, 4);
        } else if j == 5 {
            lemma_lookup_some(ex, t.cols[5].src@, 14);
        } else if j == 6 {
            lemma_lookup_some(ex, t.cols[6].src@, 5);
        } else if j == 7 {
            lemma_lookup_some(ex, t.cols[7].src@, 6);
        } else if j == 8 {
            lemma_lookup_some(ex, t.cols[8].src@, 43);
        } else if j == 9 {
            lemma_lookup_some(ex, t.cols[9].src@, 20);
        } else if j == 10 {
            lemma_lookup_some(ex, t.cols[10].src@, 12);
        } else if j == 11 {
            lemma_lookup_some(ex, t.cols[11].src@, 13);
        } else if j == 12 {
            lemma_lookup_some(ex, t.cols[12].src@, 7);
        } else if j == 13 {
            lemma_lookup_some(ex, t.cols[13].src@, 8);
        } else if j == 14 {
            lemma_lookup_some(ex, t.cols[14].src@, 16);
        } else if j == 15 {
            lemma_lookup_some(ex, t.cols[15].src@, 9);
        } else if j == 16 {
            lemma_lookup_some(ex, t.cols[16].src@, 44);
        } else if j == 17 {
            lemma_lookup_some(ex, t.cols[17].src@, 45);
        } else if j == 18 {
            lemma_lookup_some(ex, t.cols[18].src@, 46);
        } else if j == 19 {
            lemma_lookup_some(ex, t.cols[19].src@, 47);
        } else if j == 20 {
            lemma_lookup_some(ex, t.cols[20].src@, 48);
        } else if j == 21 {
            lemma_lookup_some(ex, t.cols[21].src@, 49);
        } else if j == 22 {
            lemma_lookup_some(ex, t.cols[22].src@, 50);
        } else if j == 23 {
            lemma_lookup_some(ex, t.cols[23].src@, 51);
        } else if j == 24 {
            lemma_lookup_some(ex, t.cols[24].src@, 29);
        } else if j == 25 {
            lemma_lookup_some(ex, t.cols[25].src@, 10);
        } else if j == 26 {
            lemma_lookup_some(ex, t.cols[26].src@, 11);
        } else if j == 27 {
            lemma_lookup_some(ex, t.cols[27].src@, 30);
        } else if j == 28 {
            lemma_lookup_some(ex, t.cols[28].src@, 27);
        } else if j == 29 {
            lemma_lookup_some(ex, t.cols[29].src@, 28);
        } else if j == 30 {
            lemma_lookup_some(ex, t.cols[30].src@, 25);
        } else if j == 31 {
            lemma_lookup_some(ex, t.cols[31].src@, 52);
        } else if j == 32 {
            lemma_lookup_some(ex, t.cols[32].src@, 31);
        } else if j == 33 {
            lemma_lookup_some(ex, t.cols[33].src@, 41);
        } else if j == 34 {
            lemma_lookup_some(ex, t.cols[34].src@, 24);
        } else if j == 35 {
            lemma_lookup_some(ex, t.cols[35].src@, 53);
        } else if j == 36 {
            lemma_lookup_some(ex, t.cols[36].src@, 15);
        } else if j == 37 {
            lemma_lookup_some(ex, t.cols[37].src@, 40);
        } else if j == 38 {
            lemma_lookup_some(ex, t.cols[38].src@, 26);
        } else if j == 39 {
            lemma_lookup_some(ex, t.cols[39].src@, 54);
        } else if j == 40 {
            lemma_lookup_some(ex, t.cols[40].src@, 33);
        } else if j == 41 {
            lemma_lookup_some(ex, t.cols[41].src@, 35);
        } else if j == 42 {
            lemma_lookup_some(ex, t.cols[42].src@, 63);
        } else if j == 43 {
            lemma_lookup_some(ex, t.cols[43].src@, 37);
        } else if j == 44 {
            lemma_lookup_some(ex, t.cols[44].src@, 38);
        } else if j == 45 {
            lemma_lookup_some(ex, t.cols[45].src@, 39);
        } else if j == 46 {
            lemma_lookup_some(ex, t.cols[46].src@, 42);
        } else if j == 47 {
            lemma_lookup_some(ex, t.cols[47].src@, 36);
        } else if j == 48 {
            lemma_lookup_some(ex, t.cols[48].src@, 17);
        } else if j == 49 {
            lemma_lookup_some(ex, t.cols[49].src@, 21);
        } else if j == 50 {
            lemma_lookup_some(ex, t.cols[50].src@, 22);
        } else if j == 51 {
            lemma_lookup_some(ex, t.cols[51].src@, 23);
        } else if j == 52 {
            lemma_lookup_some(ex, t.cols[52].src@, 55);
        } else if j == 53 {
            lemma_lookup_some(ex, t.cols[53].src@, 56);
        } else if j == 54 {
            lemma_lookup_some(ex, t.cols[54].src@, 57);
        } else if j == 55 {
            lemma_lookup_some(ex, t.cols[55].src@, 58);
        } else if j == 56 {
            lemma_lookup_some(ex, t.cols[56].src@, 59);
        } else if j == 57 {
            lemma_lookup_some(ex, t.cols[57].src@, 18);
        }
    }
}

#[verifier::spinoff_prover]
proof fn lemma_covered_data_tests()
    ensures
        forall|j: int| 0 <= j < info_schema_model()[11].cols.len()
            ==> column_covered(info_schema_model()[11].src, #[trigger] info_schema_model()[11].cols[j]),
{
    lemma_staging_tables();
    lemma_columns_not_in_nodes();
    let t = info_schema_model()[11];
    let nx = nodes_exprs_model();
    let tx = test_metadata_exprs_model();
    assert forall|j: int| 0 <= j < t.cols.len() implies column_covered(t.src, #[trigger] t.cols[j]) by {
        if j == 0 {
            lemma_lookup_some(nx, t.cols[0].src@, 0);
            lemma_find_column_some(nodes_index_model().cols, t.cols[0].src@, 0);
        } else if j == 1 {
            lemma_lookup_some(nx, t.cols[1].src@, 1);
            lemma_find_column_some(nodes_index_model().cols, t.cols[1].src@, 1);
        } else if j == 2 {
            lemma_lookup_some(nx, t.cols[2].src@, 3);
            lemma_find_column_some(nodes_index_model().cols, t.cols[2].src@, 3);
        } else if j == 3 {
            lemma_lookup_some(nx, t.cols[3].src@, 4);
            lemma_find_column_some(nodes_index_model().cols, t.cols[3].src@, 4);
        } else if j == 4 {
            lemma_lookup_some(nx, t.cols[4].src@, 14);
            lemma_find_column_some(nodes_index_model().cols, t.cols[4].src@, 14);
        } else if j == 5 {
            lemma_lookup_some(nx, t.cols[5].src@, 6);
            lemma_find_column_some(nodes_index_model().cols, t.cols[5].src@, 6);
        } else if j == 6 {
            lemma_lookup_some(nx, t.cols[6].src@, 12);
            lemma_find_column_some(nodes_index_model().cols, t.cols[6].src@, 12);
        } else if j == 7 {
            lemma_lookup_some(nx, t.cols[7].src@, 13);
            lemma_find_column_some(nodes_index_model().cols, t.cols[7].src@, 13);
        } else if j == 8 {
            lemma_lookup_some(nx, t.cols[8].src@, 7);
            lemma_find_column_some(nodes_index_model().cols, t.cols[8].src@, 7);
        } else if j == 9 {
            lemma_lookup_some(nx, t.cols[9].src@, 16);
            lemma_find_column_some(nodes_index_model().cols, t.cols[9].src@, 16);
        } else if j == 10 {
            lemma_lookup_some(nx, t.cols[10].src@, 9);
            lemma_find_column_some(nodes_index_model().cols, t.cols[10].src@, 9);
        } else if j == 11 {
            lemma_lookup_some(nx, t.cols[11].src@, 29);
            lemma_find_column_some(nodes_index_model().cols, t.cols[11].src@, 28);
        } else if j == 12 {
            lemma_lookup_some(nx, t.cols[12].src@, 15);
            lemma_find_column_some(nodes_index_model().cols, t.cols[12].src@, 15);
        } else if j == 13 {
            lemma_lookup_some(nx, t.cols[13].src@, 26);
            lemma_find_column_some(nodes_index_model().cols, t.cols[13].src@, 25);
        } else if j == 14 {
            lemma_lookup_some(nx, t.cols[14].src@, 11);
            lemma_find_column_some(nodes_index_model().cols, t.cols[14].src@, 11);
        } else if j == 15 {
            lemma_lookup_some(nx, t.cols[15].src@, 24);
            lemma_find_column_some(nodes_index_model().cols, t.cols[15].src@, 23);
        } else if j == 16 {
            lemma_lookup_some(nx, t.cols[16].src@, 33);
            lemma_find_column_some(nodes_index_model().cols, t.cols[16].src@, 32);
        } else if j == 17 {
            lemma_lookup_some(nx, t.cols[17].src@, 35);
            lemma_find_column_some(nodes_index_model().cols, t.cols[17].src@, 34);
        } else if j == 18 {
            lemma_lookup_some(tx, t.cols[18].src@, 0);
        } else if j == 19 {
            lemma_lookup_some(tx, t.cols[19].src@, 1);
        } else if j == 20 {
            lemma_lookup_some(tx, t.cols[20].src@, 2);
        } else if j == 21 {
            lemma_lookup_some(tx, t.cols[21].src@, 3);
        } else if j == 22 {
            lemma_lookup_some(tx, t.cols[22].src@, 4);
        } else if j == 23 {
            lemma_lookup_some(tx, t.cols[23].src@, 5);
        } else if j == 24 {
            lemma_lookup_some(tx, t.cols[24].src@, 6);
        } else if j == 25 {
            lemma_lookup_some(tx, t.cols[25].src@, 7);
        } else if j == 26 {
            lemma_lookup_some(tx, t.cols[26].src@, 8);
        } else if j == 27 {
            lemma_lookup_some(tx, t.cols[27].src@, 9);
        } else if j == 28 {
            lemma_lookup_some(tx, t.cols[28].src@, 10);
        } else if j == 29 {
            lemma_lookup_some(tx, t.cols[29].src@, 12);
        } else if j == 30 {
            lemma_lookup_some(tx, t.cols[30].src@, 11);
        } else if j == 31 {
            lemma_lookup_some(nx, t.cols[31].src@, 18);
            lemma_find_column_some(nodes_index_model().cols, t.cols[31].src@, 63);
        }
    }
}

#[verifier::spinoff_prover]
proof fn lemma_covered_unit_tests()
    ensures
        forall|j: int| 0 <= j < info_schema_model()[12].cols.len()
            ==> column_covered(info_schema_model()[12].src, #[trigger] info_schema_model()[12].cols[j]),
{
    lemma_staging_tables();
    let t = info_schema_model()[12];
    let ex = unit_tests_exprs_model();
    assert forall|j: int| 0 <= j < t.cols.len() implies column_covered(t.src, #[trigger] t.cols[j]) by {
        if j == 0 {
            lemma_lookup_some(ex, t.cols[0].src@, 0);
        } else if j == 1 {
            lemma_lookup_some(ex, t.cols[1].src@, 1);
        } else if j == 2 {
            lemma_lookup_some(ex, t.cols[2].src@, 2);
        } else if j == 3 {
            lemma_lookup_some(ex, t.cols[3].src@, 3);
        } else if j == 4 {
            lemma_lookup_some(ex, t.cols[4].src@, 4);
        } else if j == 5 {
            lemma_lookup_some(ex, t.cols[5].src@, 5);
        } else if j == 6 {
            lemma_lookup_some(ex, t.cols[6].src@, 6);
        } else if j == 7 {
            lemma_lookup_some(ex, t.cols[7].src@, 7);
        } else if j == 8 {
            lemma_lookup_some(ex, t.cols[8].src@, 8);
        } else if j == 9 {
            lemma_lookup_some(ex, t.cols[9].src@, 9);
        } else if j == 10 {
            lemma_lookup_some(ex, t.cols[10].src@, 10);
        } else if j == 11 {
            lemma_lookup_some(ex, t.cols[11].src@, 11);
        } else if j == 12 {
            lemma_lookup_some(ex, t.cols[12].src@, 12);
        } else if j == 13 {
            lemma_lookup_some(ex, t.cols[13].src@, 13);
        }
    }
}

#[verifier::spinoff_prover]
proof fn lemma_covered_macros()
    ensures
        forall|j: int| 0 <= j < info_schema_model()[13].cols.len()
            ==> column_covered(info_schema_model()[13].src, #[trigger] info_schema_model()[13].cols[j]),
{
    lemma_staging_tables();
    let t = info_schema_model()[13];
    let ex = macros_exprs_model();
    assert forall|j: int| 0 <= j < t.cols.len() implies column_covered(t.src, #[trigger] t.cols[j]) by {
        if j == 0 {
            lemma_lookup_some(ex, t.cols[0].src@, 0);
        } else if j == 1 {
            lemma_lookup_some(ex, t.cols[1].src@, 1);
        } else if j == 2 {
            lemma_lookup_some(ex, t.cols[2].src@, 2);
        } else if j == 3 {
            lemma_lookup_some(ex, t.cols[3].src@, 3);
        } else if j == 4 {
            lemma_lookup_some(ex, t.cols[4].src@, 4);
        } else if j == 5 {
            lemma_lookup_some(ex, t.cols[5].src@, 5);
        } else if j == 6 {
            lemma_lookup_some(ex, t.cols[6].src@, 6);
        } else if j == 7 {
            lemma_lookup_some(ex, t.cols[7].src@, 7);
        } else if j == 8 {
            lemma_lookup_some(ex, t.cols[8].src@, 8);
        } else if j == 9 {
            lemma_lookup_some(ex, t.cols[9].src@, 9);
        } else if j == 10 {
            lemma_lookup_some(ex, t.cols[10].src@, 10);
        } else if j == 11 {
            lemma_lookup_some(ex, t.cols[11].src@, 11);
        } else if j == 12 {
            lemma_lookup_some(ex, t.cols[12].src@, 12);
        }
    }
}

#[verifier::spinoff_prover]
proof fn lemma_covered_groups()
    ensures
        forall|j: int| 0 <= j < info_schema_model()[14].cols.len()
            ==> column_covered(info_schema_model()[14].src, #[trigger] info_schema_model()[14].cols[j]),
{
    lemma_staging_tables();
    let t = info_schema_model()[14];
    let ex = groups_exprs_model();
    assert forall|j: int| 0 <= j < t.cols.len() implies column_covered(t.src, #[trigger] t.cols[j]) by {
        if j == 0 {
            lemma_lookup_some(ex, t.cols[0].src@, 0);
        } else if j == 1 {
            lemma_lookup_some(ex, t.cols[1].src@, 1);
        } else if j == 2 {
            lemma_lookup_some(ex, t.cols[2].src@, 2);
        } else if j == 3 {
            lemma_lookup_some(ex, t.cols[3].src@, 3);
        } else if j == 4 {
            lemma_lookup_some(ex, t.cols[4].src@, 4);
        } else if j == 5 {
            lemma_lookup_some(ex, t.cols[5].src@, 6);
        } else if j == 6 {
            lemma_lookup_some(ex, t.cols[6].src@, 7);
        } else if j == 7 {
            lemma_lookup_some(ex, t.cols[7].src@, 5);
        } else if j == 8 {
            lemma_lookup_some(ex, t.cols[8].src@, 8);
        }
    }
}

#[verifier::spinoff_prover]
proof fn lemma_covered_exposures()
    ensures
        forall|j: int| 0 <= j < info_schema_model()[15].cols.len()
            ==> column_covered(info_schema_model()[15].src, #[trigger] info_schema_model()[15].cols[j]),
{
    lemma_staging_tables();
    let t = info_schema_model()[15];
    let ex = exposures_exprs_model();
    assert forall|j: int| 0 <= j < t.cols.len() implies column_covered(t.src, #[trigger] t.cols[j]) by {
        if j == 0 {
            lemma_lookup_some(ex, t.cols[0].src@, 0);
        } else if j == 1 {
            lemma_lookup_some(ex, t.cols[1].src@, 1);
        } else if j == 2 {
            lemma_lookup_some(ex, t.cols[2].src@, 2);
        } else if j == 3 {
            lemma_lookup_some(ex, t.cols[3].src@, 3);
        } else if j == 4 {
            lemma_lookup_some(ex, t.cols[4].src@, 4);
        } else if j == 5 {
            lemma_lookup_some(ex, t.cols[5].src@, 5);
        } else if j == 6 {
            lemma_lookup_some(ex, t.cols[6].src@, 6);
        } else if j == 7 {
            lemma_lookup_some(ex, t.cols[7].src@, 7);
        } else if j == 8 {
            lemma_lookup_some(ex, t.cols[8].src@, 8);
        } else if j == 9 {
            lemma_lookup_some(ex, t.cols[9].src@, 9);
        } else if j == 10 {
            lemma_lookup_some(ex, t.cols[10].src@, 10);
        } else if j == 11 {
            lemma_lookup_some(ex, t.cols[11].src@, 11);
        } else if j == 12 {
            lemma_lookup_some(ex, t.cols[12].src@, 12);
        } else if j == 13 {
            lemma_lookup_some(ex, t.cols[13].src@, 13);
        } else if j == 14 {
            lemma_lookup_some(ex, t.cols[14].src@, 16);
        } else if j == 15 {
            lemma_lookup_some(ex, t.cols[15].src@, 15);
        } else if j == 16 {
            lemma_lookup_some(ex, t.cols[16].src@, 14);
        } else if j == 17 {
            lemma_lookup_some(ex, t.cols[17].src@, 17);
        }
    }
}

#[verifier::spinoff_prover]
proof fn lemma_covered_metrics()
    ensures
        forall|j: int| 0 <= j < info_schema_model()[16].cols.len()
            ==> column_covered(info_schema_model()[16].src, #[trigger] info_schema_model()[16].cols[j]),
{
    lemma_staging_tables();
    let t = info_schema_model()[16];
    let ex = metrics_exprs_model();
    assert forall|j: int| 0 <= j < t.cols.len() implies column_covered(t.src, #[trigger] t.cols[j]) by {
        if j == 0 {
            lemma_lookup_some(ex, t.cols[0].src@, 0);
        } else if j == 1 {
            lemma_lookup_some(ex, t.cols[1].src@, 1);
        } else if j == 2 {
            lemma_lookup_some(ex, t.cols[2].src@, 2);
        } else if j == 3 {
            lemma_lookup_some(ex, t.cols[3].src@, 3);
        } else if j == 4 {
            lemma_lookup_some(ex, t.cols[4].src@, 4);
        } else if j == 5 {
            lemma_lookup_some(ex, t.cols[5].src@, 5);
        } else if j == 6 {
            lemma_lookup_some(ex, t.cols[6].src@, 6);
        } else if j == 7 {
            lemma_lookup_some(ex, t.cols[7].src@, 7);
        } else if j == 8 {
            lemma_lookup_some(ex, t.cols[8].src@, 8);
        } else if j == 9 {
            lemma_lookup_some(ex, t.cols[9].src@, 9);
        } else if j == 10 {
            lemma_lookup_some(ex, t.cols[10].src@, 10);
        } else if j == 11 {
            lemma_lookup_some(ex, t.cols[11].src@, 18);
        } else if j == 12 {
            lemma_lookup_some(ex, t.cols[12].src@, 11);
        } else if j == 13 {
            lemma_lookup_some(ex, t.cols[13].src@, 12);
        } else if j == 14 {
            lemma_lookup_some(ex, t.cols[14].src@, 13);
        } else if j == 15 {
            lemma_lookup_some(ex, t.cols[15].src@, 14);
        } else if j == 16 {
            lemma_lookup_some(ex, t.cols[16].src@, 17);
        } else if j == 17 {
            lemma_lookup_some(ex, t.cols[17].src@, 15);
        } else if j == 18 {
            lemma_lookup_some(ex, t.cols[18].src@, 16);
        } else if j == 19 {
            lemma_lookup_some(ex, t.cols[19].src@, 19);
        }
    }
}

#[verifier::spinoff_prover]
proof fn lemma_covered_docs_blocks()
    ensures
        forall|j: int| 0 <= j < info_schema_model()[17].cols.len()
            ==> column_covered(info_schema_model()[17].src, #[trigger] info_schema_model()[17].cols[j]),
{
    lemma_staging_tables();
    let t = info_schema_model()[17];
    let ex = docs_exprs_model();
    assert forall|j: int| 0 <= j < t.cols.len() implies column_covered(t.src, #[trigger] t.cols[j]) by {
        if j == 0 {
            lemma_lookup_some(ex, t.cols[0].src@, 0);
        } else if j == 1 {
            lemma_lookup_some(ex, t.cols[1].src@, 1);
        } else if j == 2 {
            lemma_lookup_some(ex, t.cols[2].src@, 2);
        } else if j == 3 {
            lemma_lookup_some(ex, t.cols[3].src@, 3);
        } else if j == 4 {
            lemma_lookup_some(ex, t.cols[4].src@, 4);
        } else if j == 5 {
            lemma_lookup_some(ex, t.cols[5].src@, 5);
        }
    }
}

#[verifier::spinoff_prover]
proof fn lemma_covered_saved_queries()
    ensures
        forall|j: int| 0 <= j < info_schema_model()[18].cols.len()
            ==> column_covered(info_schema_model()[18].src, #[trigger] info_schema_model()[18].cols[j]),
{
    lemma_staging_tables();
    let t = info_schema_model()[18];
    let ex = saved_queries_exprs_model();
    assert forall|j: int| 0 <= j < t.cols.len() implies column_covered(t.src, #[trigger] t.cols[j]) by {
        if j == 0 {
            lemma_lookup_some(ex, t.cols[0].src@, 0);
        } else if j == 1 {
            lemma_lookup_some(ex, t.cols[1].src@, 1);
        } else if j == 2 {
            lemma_lookup_some(ex, t.cols[2].src@, 2);
        } else if j == 3 {
            lemma_lookup_some(ex, t.cols[3].src@, 3);
        } else if j == 4 {
            lemma_lookup_some(ex, t.cols[4].src@, 4);
        } else if j == 5 {
            lemma_lookup_some(ex, t.cols[5].src@, 5);
        } else if j == 6 {
            lemma_lookup_some(ex, t.cols[6].src@, 6);
        } else if j == 7 {
            lemma_lookup_some(ex, t.cols[7].src@, 7);
        } else if j == 8 {
            lemma_lookup_some(ex, t.cols[8].src@, 8);
        } else if j == 9 {
            lemma_lookup_some(ex, t.cols[9].src@, 9);
        } else if j == 10 {
            lemma_lookup_some(ex, t.cols[10].src@, 11);
        } else if j == 11 {
            lemma_lookup_some(ex, t.cols[11].src@, 10);
        } else if j == 12 {
            lemma_lookup_some(ex, t.cols[12].src@, 13);
        } else if j == 13 {
            lemma_lookup_some(ex, t.cols[13].src@, 12);
        } else if j == 14 {
            lemma_lookup_some(ex, t.cols[14].src@, 14);
        }
    }
}

#[verifier::spinoff_prover]
proof fn lemma_covered_semantic_models()
    ensures
        forall|j: int| 0 <= j < info_schema_model()[19].cols.len()
            ==> column_covered(info_schema_model()[19].src, #[trigger] info_schema_model()[19].cols[j]),
{
    lemma_staging_tables();
    let t = info_schema_model()[19];
    let ex = semantic_models_exprs_model();
    assert forall|j: int| 0 <= j < t.cols.len() implies column_covered(t.src, #[trigger] t.cols[j]) by {
        if j == 0 {
            lemma_lookup_some(ex, t.cols[0].src@, 0);
        } else if j == 1 {
            lemma_lookup_some(ex, t.cols[1].src@, 1);
        } else if j == 2 {
            lemma_lookup_some(ex, t.cols[2].src@, 2);
        } else if j == 3 {
            lemma_lookup_some(ex, t.cols[3].src@, 3);
        } else if j == 4 {
            lemma_lookup_some(ex, t.cols[4].src@, 4);
        } else if j == 5 {
            lemma_lookup_some(ex, t.cols[5].src@, 11);
        } else if j == 6 {
            lemma_lookup_some(ex, t.cols[6].src@, 12);
        } else if j == 7 {
            lemma_lookup_some(ex, t.cols[7].src@, 5);
        } else if j == 8 {
            lemma_lookup_some(ex, t.cols[8].src@, 6);
        } else if j == 9 {
            lemma_lookup_some(ex, t.cols[9].src@, 7);
        } else if j == 10 {
            lemma_lookup_some(ex, t.cols[10].src@, 8);
        } else if j == 11 {
            lemma_lookup_some(ex, t.cols[11].src@, 9);
        } else if j == 12 {
            lemma_lookup_some(ex, t.cols[12].src@, 13);
        } else if j == 13 {
            lemma_lookup_some(ex, t.cols[13].src@, 10);
        } else if j == 14 {
            lemma_lookup_some(ex, t.cols[14].src@, 14);
        }
    }
}

#[verifier::spinoff_prover]
proof fn lemma_covered_semantic_entities()
    ensures
        forall|j: int| 0 <= j < info_schema_model()[20].cols.len()
            ==> column_covered(info_schema_model()[20].src, #[trigger] info_schema_model()[20].cols[j]),
{
    lemma_staging_tables();
    let t = info_schema_model()[20];
    let ex = semantic_entities_exprs_model();
    assert forall|j: int| 0 <= j < t.cols.len() implies column_covered(t.src, #[trigger] t.cols[j]) by {
        if j == 0 {
            lemma_lookup_some(ex, t.cols[0].src@, 0);
        } else if j == 1 {
            lemma_lookup_some(ex, t.cols[1].src@, 1);
        } else if j == 2 {
            lemma_lookup_some(ex, t.cols[2].src@, 2);
        } else if j == 3 {
            lemma_lookup_some(ex, t.cols[3].src@, 3);
        } else if j == 4 {
            lemma_lookup_some(ex, t.cols[4].src@, 4);
        } else if j == 5 {
            lemma_lookup_some(ex, t.cols[5].src@, 5);
        } else if j == 6 {
            lemma_lookup_some(ex, t.cols[6].src@, 6);
        } else if j == 7 {
            lemma_lookup_some(ex, t.cols[7].src@, 7);
        } else if j == 8 {
            lemma_lookup_some(ex, t.cols[8].src@, 8);
        }
    }
}

#[verifier::spinoff_prover]
proof fn lemma_covered_semantic_measures()
    ensures
        forall|j: int| 0 <= j < info_schema_model()[21].cols.len()
            ==> column_covered(info_schema_model()[21].src, #[trigger] info_schema_model()[21].cols[j]),
{
    lemma_staging_tables();
    let t = info_schema_model()[21];
    let ex = semantic_measures_exprs_model();
    assert forall|j: int| 0 <= j < t.cols.len() implies column_covered(t.src, #[trigger] t.cols[j]) by {
        if j == 0 {
            lemma_lookup_some(ex, t.cols[0].src@, 0);
        } else if j == 1 {
            lemma_lookup_some(ex, t.cols[1].src@, 1);
        } else if j == 2 {
            lemma_lookup_some(ex, t.cols[2].src@, 2);
        } else if j == 3 {
            lemma_lookup_some(ex, t.cols[3].src@, 3);
        } else if j == 4 {
            lemma_lookup_some(ex, t.cols[4].src@, 4);
        } else if j == 5 {
            lemma_lookup_some(ex, t.cols[5].src@, 5);
        } else if j == 6 {
            lemma_lookup_some(ex, t.cols[6].src@, 6);
        } else if j == 7 {
            lemma_lookup_some(ex, t.cols[7].src@, 7);
        } else if j == 8 {
            lemma_lookup_some(ex, t.cols[8].src@, 8);
        } else if j == 9 {
            lemma_lookup_some(ex, t.cols[9].src@, 9);
        } else if j == 10 {
            lemma_lookup_some(ex, t.cols[10].src@, 10);
        } else if j == 11 {
            lemma_lookup_some(ex, t.cols[11].src@, 11);
        }
    }
}

#[verifier::spinoff_prover]
proof fn lemma_covered_semantic_dimensions()
    ensures
        forall|j: int| 0 <= j < info_schema_model()[22].cols.len()
            ==> column_covered(info_schema_model()[22].src, #[trigger] info_schema_model()[22].cols[j]),
{
    lemma_staging_tables();
    let t = info_schema_model()[22];
    let ex = semantic_dimensions_exprs_model();
    assert forall|j: int| 0 <= j < t.cols.len() implies column_covered(t.src, #[trigger] t.cols[j]) by {
        if j == 0 {
            lemma_lookup_some(ex, t.cols[0].src@, 0);
        } else if j == 1 {
            lemma_lookup_some(ex, t.cols[1].src@, 1);
        } else if j == 2 {
            lemma_lookup_some(ex, t.cols[2].src@, 2);
        } else if j == 3 {
            lemma_lookup_some(ex, t.cols[3].src@, 3);
        } else if j == 4 {
            lemma_lookup_some(ex, t.cols[4].src@, 4);
        } else if j == 5 {
            lemma_lookup_some(ex, t.cols[5].src@, 5);
        } else if j == 6 {
            lemma_lookup_some(ex, t.cols[6].src@, 6);
        } else if j == 7 {
            lemma_lookup_some(ex, t.cols[7].src@, 7);
        } else if j == 8 {
            lemma_lookup_some(ex, t.cols[8].src@, 8);
        } else if j == 9 {
            lemma_lookup_some(ex, t.cols[9].src@, 9);
        } else if j == 10 {
            lemma_lookup_some(ex, t.cols[10].src@, 10);
        }
    }
}

#[verifier::spinoff_prover]
proof fn lemma_covered_time_spines()
    ensures
        forall|j: int| 0 <= j < info_schema_model()[24].cols.len()
            ==> column_covered(info_schema_model()[24].src, #[trigger] info_schema_model()[24].cols[j]),
{
    lemma_staging_tables();
    let t = info_schema_model()[24];
    let ex = time_spines_exprs_model();
    assert forall|j: int| 0 <= j < t.cols.len() implies column_covered(t.src, #[trigger] t.cols[j]) by {
        if j == 0 {
            lemma_lookup_some(ex, t.cols[0].src@, 0);
        } else if j == 1 {
            lemma_lookup_some(ex, t.cols[1].src@, 1);
        } else if j == 2 {
            lemma_lookup_some(ex, t.cols[2].src@, 2);
        } else if j == 3 {
            lemma_lookup_some(ex, t.cols[3].src@, 3);
        } else if j == 4 {
            lemma_lookup_some(ex, t.cols[4].src@, 4);
        } else if j == 5 {
            lemma_lookup_some(ex, t.cols[5].src@, 5);
        }
    }
}

#[verifier::spinoff_prover]
proof fn lemma_covered_edges()
    ensures
        forall|j: int| 0 <= j < info_schema_model()[26].cols.len()
            ==> column_covered(info_schema_model()[26].src, #[trigger] info_schema_model()[26].cols[j]),
{
    lemma_staging_tables();
    let t = info_schema_model()[26];
    let ex = edges_exprs_model();
    assert forall|j: int| 0 <= j < t.cols.len() implies column_covered(t.src, #[trigger] t.cols[j]) by {
        if j == 0 {
            lemma_lookup_some(ex, t.cols[0].src@, 0);
        } else if j == 1 {
            lemma_lookup_some(ex, t.cols[1].src@, 1);
        } else if j == 2 {
            lemma_lookup_some(ex, t.cols[2].src@, 3);
        }
    }
}

#[verifier::spinoff_prover]
proof fn lemma_covered_column_lineage()
    ensures
        forall|j: int| 0 <= j < info_schema_model()[28].cols.len()
            ==> column_covered(info_schema_model()[28].src, #[trigger] info_schema_model()[28].cols[j]),
{
    lemma_staging_tables();
    let t = info_schema_model()[28];
    let ex = column_lineage_exprs_model();
    assert forall|j: int| 0 <= j < t.cols.len() implies column_covered(t.src, #[trigger] t.cols[j]) by {
        if j == 0 {
            lemma_lookup_some(ex, t.cols[0].src@, 0);
        } else if j == 1 {
            lemma_lookup_some(ex, t.cols[1].src@, 1);
        } else if j == 2 {
            lemma_lookup_some(ex, t.cols[2].src@, 2);
        } else if j == 3 {
            lemma_lookup_some(ex, t.cols[3].src@, 3);
        } else if j == 4 {
            lemma_lookup_some(ex, t.cols[4].src@, 4);
        } else if j == 5 {
            lemma_lookup_some(ex, t.cols[5].src@, 5);
        }
    }
}

#[verifier::spinoff_prover]
proof fn lemma_covered_invocations()
    ensures
        forall|j: int| 0 <= j < info_schema_model()[30].cols.len()
            ==> column_covered(info_schema_model()[30].src, #[trigger] info_schema_model()[30].cols[j]),
{
    lemma_staging_tables();
    let t = info_schema_model()[30];
    let ex = invocations_exprs_model();
    assert forall|j: int| 0 <= j < t.cols.len() implies column_covered(t.src, #[trigger] t.cols[j]) by {
        if j == 0 {
            lemma_lookup_some(ex, t.cols[0].src@, 0);
        } else if j == 1 {
            lemma_lookup_some(ex, t.cols[1].src@, 1);
        } else if j == 2 {
            lemma_lookup_some(ex, t.cols[2].src@, 2);
        } else if j == 3 {
            lemma_lookup_some(ex, t.cols[3].src@, 3);
        } else if j == 4 {
            lemma_lookup_some(ex, t.cols[4].src@, 4);
        } else if j == 5 {
            lemma_lookup_some(ex, t.cols[5].src@, 5);
        } else if j == 6 {
            lemma_lookup_some(ex, t.cols[6].src@, 12);
        } else if j == 7 {
            lemma_lookup_some(ex, t.cols[7].src@, 6);
        } else if j == 8 {
            lemma_lookup_some(ex, t.cols[8].src@, 7);
        } else if j == 9 {
            lemma_lookup_some(ex, t.cols[9].src@, 8);
        } else if j == 10 {
            lemma_lookup_some(ex, t.cols[10].src@, 13);
        } else if j == 11 {
            lemma_lookup_some(ex, t.cols[11].src@, 14);
        } else if j == 12 {
            lemma_lookup_some(ex, t.cols[12].src@, 15);
        } else if j == 13 {
            lemma_lookup_some(ex, t.cols[13].src@, 16);
        } else if j == 14 {
            lemma_lookup_some(ex, t.cols[14].src@, 9);
        } else if j == 15 {
            lemma_lookup_some(ex, t.cols[15].src@, 10);
        } else if j == 16 {
            lemma_lookup_some(ex, t.cols[16].src@, 11);
        }
    }
}

#[verifier::spinoff_prover]
proof fn lemma_covered_run_results()
    ensures
        forall|j: int| 0 <= j < info_schema_model()[31].cols.len()
            ==> column_covered(info_schema_model()[31].src, #[trigger] info_schema_model()[31].cols[j]),
{
    lemma_staging_tables();
    let t = info_schema_model()[31];
    let ex = run_results_exprs_model();
    assert forall|j: int| 0 <= j < t.cols.len() implies column_covered(t.src, #[trigger] t.cols[j]) by {
        if j == 0 {
            lemma_lookup_some(ex, t.cols[0].src@, 0);
        } else if j == 1 {
            lemma_lookup_some(ex, t.cols[1].src@, 1);
        } else if j == 2 {
            lemma_lookup_some(ex, t.cols[2].src@, 2);
        } else if j == 3 {
            lemma_lookup_some(ex, t.cols[3].src@, 3);
        } else if j == 4 {
            lemma_lookup_some(ex, t.cols[4].src@, 4);
        } else if j == 5 {
            lemma_lookup_some(ex, t.cols[5].src@, 5);
        } else if j == 6 {
            lemma_lookup_some(ex, t.cols[6].src@, 6);
        } else if j == 7 {
            lemma_lookup_some(ex, t.cols[7].src@, 7);
        } else if j == 8 {
            lemma_lookup_some(ex, t.cols[8].src@, 10);
        } else if j == 9 {
            lemma_lookup_some(ex, t.cols[9].src@, 11);
        } else if j == 10 {
            lemma_lookup_some(ex, t.cols[10].src@, 12);
        } else if j == 11 {
            lemma_lookup_some(ex, t.cols[11].src@, 13);
        } else if j == 12 {
            lemma_lookup_some(ex, t.cols[12].src@, 8);
        } else if j == 13 {
            lemma_lookup_some(ex, t.cols[13].src@, 9);
        } else if j == 14 {
            lemma_lookup_some(ex, t.cols[14].src@, 14);
        }
    }
}

#[verifier::spinoff_prover]
proof fn lemma_covered_source_freshness()
    ensures
        forall|j: int| 0 <= j < info_schema_model()[32].cols.len()
            ==> column_covered(info_schema_model()[32].src, #[trigger] info_schema_model()[32].cols[j]),
{
    lemma_staging_tables();
    let t = info_schema_model()[32];
    let ex = source_freshness_exprs_model();
    assert forall|j: int| 0 <= j < t.cols.len() implies column_covered(t.src, #[trigger] t.cols[j]) by {
        if j == 0 {
            lemma_lookup_some(ex, t.cols[0].src@, 0);
        } else if j == 1 {
            lemma_lookup_some(ex, t.cols[1].src@, 1);
        } else if j == 2 {
            lemma_lookup_some(ex, t.cols[2].src@, 2);
        } else if j == 3 {
            lemma_lookup_some(ex, t.cols[3].src@, 3);
        } else if j == 4 {
            lemma_lookup_some(ex, t.cols[4].src@, 4);
        } else if j == 5 {
            lemma_lookup_some(ex, t.cols[5].src@, 5);
        } else if j == 6 {
            lemma_lookup_some(ex, t.cols[6].src@, 6);
        } else if j == 7 {
            lemma_lookup_some(ex, t.cols[7].src@, 16);
        } else if j == 8 {
            lemma_lookup_some(ex, t.cols[8].src@, 14);
        } else if j == 9 {
            lemma_lookup_some(ex, t.cols[9].src@, 7);
        } else if j == 10 {
            lemma_lookup_some(ex, t.cols[10].src@, 8);
        } else if j == 11 {
            lemma_lookup_some(ex, t.cols[11].src@, 9);
        } else if j == 12 {
            lemma_lookup_some(ex, t.cols[12].src@, 10);
        } else if j == 13 {
            lemma_lookup_some(ex, t.cols[13].src@, 15);
        } else if j == 14 {
            lemma_lookup_some(ex, t.cols[14].src@, 12);
        } else if j == 15 {
            lemma_lookup_some(ex, t.cols[15].src@, 17);
        } else if j == 16 {
            lemma_lookup_some(ex, t.cols[16].src@, 13);
        } else if j == 17 {
            lemma_lookup_some(ex, t.cols[17].src@, 11);
        }
    }
}

/// A table's columns, each covered, contribute only covered pairs.
proof fn lemma_cols_pairs_covered(src: Src, cols: Seq<ColSpec>)
    requires
        forall|j: int| 0 <= j < cols.len() ==> column_covered(src, #[trigger] cols[j]),
    ensures
        forall|i: int| 0 <= i < cols_pairs(src, cols).len() && relation_backed((#[trigger] cols_pairs(src, cols)[i]).0@)
            ==> spec_epoch_expr(cols_pairs(src, cols)[i].0@, cols_pairs(src, cols)[i].1@) is Some,
    decreases cols.len(),
{
    if cols.len() > 0 {
        let prev = cols.drop_last();
        assert forall|j: int| 0 <= j < prev.len() implies column_covered(src, #[trigger] prev[j]) by {
            assert(prev[j] == cols[j]);
        }
        lemma_cols_pairs_covered(src, prev);
        let rest = cols_pairs(src, prev);
        assert(column_covered(src, cols[cols.len() - 1]));
        assert forall|i: int| 0 <= i < cols_pairs(src, cols).len() && relation_backed((#[trigger] cols_pairs(src, cols)[i]).0@)
            implies spec_epoch_expr(cols_pairs(src, cols)[i].0@, cols_pairs(src, cols)[i].1@) is Some by {
            if i < rest.len() {
                assert(cols_pairs(src, cols)[i] == rest[i]);
            }
        }
    }
}

/// Every table of a schema whose columns are each covered reads only covered
/// pairs.
proof fn lemma_schema_pairs_covered(m: Seq<TableModel>)
    requires
        forall|k: int, j: int| 0 <= k < m.len() && 0 <= j < m[k].cols.len() ==> column_covered(m[k].src, #[trigger] m[k].cols[j]),
    ensures
        forall|i: int| 0 <= i < schema_pairs(m).len() && relation_backed((#[trigger] schema_pairs(m)[i]).0@)
            ==> spec_epoch_expr(schema_pairs(m)[i].0@, schema_pairs(m)[i].1@) is Some,
    decreases m.len(),
{
    if m.len() > 0 {
        let prev = m.drop_last();
        assert forall|k: int, j: int| 0 <= k < prev.len() && 0 <= j < prev[k].cols.len()
            implies column_covered(prev[k].src, #[trigger] prev[k].cols[j]) by {
            assert(prev[k] == m[k]);
        }
        lemma_schema_pairs_covered(prev);
        let last = m[m.len() - 1];
        assert(last == m.last());
        assert forall|j: int| 0 <= j < last.cols.len() implies column_covered(last.src, #[trigger] last.cols[j]) by {
            assert(column_covered(m[m.len() - 1].src, m[m.len() - 1].cols[j]));
        }
        lemma_cols_pairs_covered(last.src, last.cols);
        let p = schema_pairs(prev);
        let c = cols_pairs(last.src, last.cols);
        assert forall|i: int| 0 <= i < schema_pairs(m).len() && relation_backed((#[trigger] schema_pairs(m)[i]).0@)
            implies spec_epoch_expr(schema_pairs(m)[i].0@, schema_pairs(m)[i].1@) is Some by {
            if i < p.len() {
                assert(schema_pairs(m)[i] == p[i]);
            } else {
                assert(schema_pairs(m)[i] == c[i - p.len()]);
            }
        }
    }
}

#[verifier::spinoff_prover]
proof fn lemma_tables_covered_0_9(k: int)
    requires
        0 <= k < 9,
    ensures
        forall|j: int| 0 <= j < info_schema_model()[k].cols.len()
            ==> column_covered(info_schema_model()[k].src, #[trigger] info_schema_model()[k].cols[j]),
{
    lemma_staging_tables();
    let m = info_schema_model();
    if k == 0 {
        assert(m[0] == m[0]);
    } else if k == 1 {
        assert(m[1] == m[1]);
    } else if k == 2 {
        assert(m[2] == m[2]);
    } else if k == 3 {
        assert(m[3] == m[3]);
    } else if k == 4 {
        lemma_covered_models();
    } else if k == 5 {
        lemma_covered_seeds();
    } else if k == 6 {
        lemma_covered_snapshots();
    } else if k == 7 {
        lemma_covered_functions();
    } else if k == 8 {
        lemma_covered_analyses();
    }
}

#[verifier::spinoff_prover]
proof fn lemma_tables_covered_9_18(k: int)
    requires
        9 <= k < 18,
    ensures
        forall|j: int| 0 <= j < info_schema_model()[k].cols.len()
            ==> column_covered(info_schema_model()[k].src, #[trigger] info_schema_model()[k].cols[j]),
{
    lemma_staging_tables();
    let m = info_schema_model();
    if k == 9 {
        lemma_covered_hooks();
    } else if k == 10 {
        lemma_covered_sources();
    } else if k == 11 {
        lemma_covered_data_tests();
    } else if k == 12 {
        lemma_covered_unit_tests();
    } else if k == 13 {
        lemma_covered_macros();
    } else if k == 14 {
        lemma_covered_groups();
    } else if k == 15 {
        lemma_covered_exposures();
    } else if k == 16 {
        lemma_covered_metrics();
    } else if k == 17 {
        lemma_covered_docs_blocks();
    }
}

#[verifier::spinoff_prover]
proof fn lemma_tables_covered_18_27(k: int)
    requires
        18 <= k < 27,
    ensures
        forall|j: int| 0 <= j < info_schema_model()[k].cols.len()
            ==> column_covered(info_schema_model()[k].src, #[trigger] info_schema_model()[k].cols[j]),
{
    lemma_staging_tables();
    let m = info_schema_model();
    if k == 18 {
        lemma_covered_saved_queries();
    } else if k == 19 {
        lemma_covered_semantic_models();
    } else if k == 20 {
        lemma_covered_semantic_entities();
    } else if k == 21 {
        lemma_covered_semantic_measures();
    } else if k == 22 {
        lemma_covered_semantic_dimensions();
    } else if k == 23 {
        assert(m[23] == m[23]);
    } else if k == 24 {
        lemma_covered_time_spines();
    } else if k == 25 {
        assert(m[25] == m[25]);
    } else if k == 26 {
        lemma_covered_edges();
    }
}

#[verifier::spinoff_prover]
proof fn lemma_tables_covered_27_36(k: int)
    requires
        27 <= k < 36,
    ensures
        forall|j: int| 0 <= j < info_schema_model()[k].cols.len()
            ==> column_covered(info_schema_model()[k].src, #[trigger] info_schema_model()[k].cols[j]),
{
    lemma_staging_tables();
    let m = info_schema_model();
    if k == 27 {
        assert(m[27] == m[27]);
    } else if k == 28 {
        lemma_covered_column_lineage();
    } else if k == 29 {
        assert(m[29] == m[29]);
    } else if k == 30 {
        lemma_covered_invocations();
    } else if k == 31 {
        lemma_covered_run_results();
    } else if k == 32 {
        lemma_covered_source_freshness();
    } else if k == 33 {
        assert(m[33] == m[33]);
    } else if k == 34 {
        assert(m[34] == m[34]);
    } else if k == 35 {
        assert(m[35] == m[35]);
    }
}

/// Every column the information schema reads from a relation-backed staging
/// table is one the epoch mapping covers: `epoch_expr` has an expression for
/// every referenced pair whose table is read from an epoch relation.
pub proof fn every_referenced_column_is_mapped()
    ensures
        forall|i: int| 0 <= i < schema_pairs(info_schema_model()).len()
            && relation_backed((#[trigger] schema_pairs(info_schema_model())[i]).0@)
            ==> spec_epoch_expr(schema_pairs(info_schema_model())[i].0@, schema_pairs(info_schema_model())[i].1@) is Some,
{
    let m = info_schema_model();
    assert forall|k: int, j: int| 0 <= k < m.len() && 0 <= j < m[k].cols.len() implies column_covered(m[k].src, #[trigger] m[k].cols[j]) by {
        if k < 9 {
            lemma_tables_covered_0_9(k);
        } else if k < 18 {
            lemma_tables_covered_9_18(k);
        } else if k < 27 {
            lemma_tables_covered_18_27(k);
        } else {
            lemma_tables_covered_27_36(k);
        }
    }
    lemma_schema_pairs_covered(m);
}

} // verus!
