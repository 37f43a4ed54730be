//! What holds of every generated shader.

use vstd::prelude::*;

use super::data_type::WebGLDataType;
use super::generator::{
    attribute_declarations, attribute_line, attribute_lines, attributes_text,
    block_closing, block_member_declarations, block_opening, block_text, block_texts,
    collection_declarations, collection_text, first_void, function_text,
    generate_vertex_fragment_shader, header_text, imported_function_text,
    imported_functions_text, lemma_none_void, main_text, member_line, member_lines,
    program_outcome, stage_declarations, stage_result, uniform_declarations, uniform_line,
    uniform_lines, varying_declarations, varying_line, varying_lines, varyings_text,
    Declaration, GenerateError, GenerateErrorView,
};
use super::model::{
    find_by_name, view_each, FunctionDefinition, FunctionDefinitionTypeView,
    FunctionDefinitionView, ShaderSource, ShaderSourceView, ShaderStageView,
    UniformCollectionView,
};
use super::text::{
    join_lines, lemma_flatten_split, lemma_line_occurs, lemma_lines_in_order,
    lemma_occurs_within, lemma_part_of_part, line_start, occurs_at,
};

verus! {

/// Generation is deterministic: two runs on sources and resolved functions
/// that hold the same give the same two texts, character for character, or
/// the same error.
pub proof fn lemma_generation_is_deterministic(
    first_source: &ShaderSource,
    first_functions: &Vec<FunctionDefinition>,
    first_result: Result<(String, String), GenerateError>,
    second_source: &ShaderSource,
    second_functions: &Vec<FunctionDefinition>,
    second_result: Result<(String, String), GenerateError>,
)
    requires
        first_source@ == second_source@,
        view_each(first_functions@) == view_each(second_functions@),
        call_ensures(
            generate_vertex_fragment_shader,
            (first_source, first_functions),
            first_result,
        ),
        call_ensures(
            generate_vertex_fragment_shader,
            (second_source, second_functions),
            second_result,
        ),
    ensures
        program_outcome(first_result) == program_outcome(second_result),
{
}

/// Where the attribute `index` of a stage begins in the stage's text.
pub open spec fn attribute_position(stage: ShaderStageView, is_vertex: bool, index: int) -> int {
    header_text().len() + line_start(attribute_lines(stage.attributes, is_vertex), index)
}

/// Where the varying `index` begins in a stage's text.
pub open spec fn varying_position(
    source: ShaderSourceView,
    stage: ShaderStageView,
    is_vertex: bool,
    index: int,
) -> int {
    header_text().len() + attributes_text(stage.attributes, is_vertex).len() + line_start(
        varying_lines(source.varyings, !is_vertex),
        index,
    )
}

/// Where the uniforms that both stages share begin in a stage's text, or,
/// with `own`, where the stage's own uniforms begin.
pub open spec fn collection_position(
    source: ShaderSourceView,
    stage: ShaderStageView,
    is_vertex: bool,
    own: bool,
) -> int {
    header_text().len() + attributes_text(stage.attributes, is_vertex).len() + varyings_text(
        source.varyings,
        !is_vertex,
    ).len() + if own {
        collection_text(source.common_uniforms).len() as int
    } else {
        0
    }
}

/// The shared uniforms of a source, or, with `own`, the uniforms of the
/// stage.
pub open spec fn stage_collection(
    source: ShaderSourceView,
    stage: ShaderStageView,
    own: bool,
) -> UniformCollectionView {
    if own {
        stage.uniform_collection
    } else {
        source.common_uniforms
    }
}

/// Where the member `member` of the block `block` begins in the text of a
/// collection.
pub open spec fn member_position(
    collection: UniformCollectionView,
    block: int,
    member: int,
) -> int {
    line_start(block_texts(collection.uniform_blocks), block) + block_opening(
        collection.uniform_blocks[block],
    ).len() + line_start(member_lines(collection.uniform_blocks[block].uniforms), member)
}

/// Where the free-standing uniform `index` begins in the text of a
/// collection.
pub open spec fn uniform_position(collection: UniformCollectionView, index: int) -> int {
    join_lines(block_texts(collection.uniform_blocks)).len() + line_start(
        uniform_lines(collection.uniforms),
        index,
    )
}

/// The text of a stage that was generated is made of seven parts, in this
/// order.
pub proof fn lemma_stage_sections(
    source: ShaderSourceView,
    stage: ShaderStageView,
    functions: Seq<FunctionDefinitionView>,
    is_vertex: bool,
)
    requires
        stage_result(source, stage, functions, is_vertex) is Ok,
    ensures
        imported_functions_text(stage.import_fn, functions) is Ok,
        stage_result(source, stage, functions, is_vertex)->Ok_0 == header_text() + attributes_text(
            stage.attributes,
            is_vertex,
        ) + varyings_text(source.varyings, !is_vertex) + collection_text(source.common_uniforms)
            + collection_text(stage.uniform_collection) + imported_functions_text(
            stage.import_fn,
            functions,
        )->Ok_0 + main_text(stage.main_fn),
{
}

/// Attributes stand in the generated text in the order of their
/// declaration: each has its line there, and the line of an earlier
/// attribute ends before the line of a later one begins.
pub proof fn lemma_attributes_keep_order(
    source: ShaderSourceView,
    stage: ShaderStageView,
    functions: Seq<FunctionDefinitionView>,
    is_vertex: bool,
    earlier: int,
    later: int,
)
    requires
        stage_result(source, stage, functions, is_vertex) is Ok,
        0 <= earlier < later < stage.attributes.len(),
    ensures
        occurs_at(
            stage_result(source, stage, functions, is_vertex)->Ok_0,
            attribute_line(stage.attributes[earlier], is_vertex),
            attribute_position(stage, is_vertex, earlier),
        ),
        occurs_at(
            stage_result(source, stage, functions, is_vertex)->Ok_0,
            attribute_line(stage.attributes[later], is_vertex),
            attribute_position(stage, is_vertex, later),
        ),
        attribute_position(stage, is_vertex, earlier) + attribute_line(
            stage.attributes[earlier],
            is_vertex,
        ).len() <= attribute_position(stage, is_vertex, later),
{
    let text = stage_result(source, stage, functions, is_vertex)->Ok_0;
    let lines = attribute_lines(stage.attributes, is_vertex);
    let before = header_text();
    let after = varyings_text(source.varyings, !is_vertex) + collection_text(
        source.common_uniforms,
    ) + collection_text(stage.uniform_collection) + imported_functions_text(
        stage.import_fn,
        functions,
    )->Ok_0 + main_text(stage.main_fn);
    assert(text =~= before + join_lines(lines) + after);
    lemma_line_occurs(lines, earlier);
    lemma_line_occurs(lines, later);
    lemma_lines_in_order(lines, earlier, later);
    let joined = join_lines(lines);
    lemma_occurs_within(before, joined, after, lines[earlier], line_start(lines, earlier));
    lemma_occurs_within(before, joined, after, lines[later], line_start(lines, later));
}

/// Varyings stand in the generated text in the order of their declaration.
pub proof fn lemma_varyings_keep_order(
    source: ShaderSourceView,
    stage: ShaderStageView,
    functions: Seq<FunctionDefinitionView>,
    is_vertex: bool,
    earlier: int,
    later: int,
)
    requires
        stage_result(source, stage, functions, is_vertex) is Ok,
        0 <= earlier < later < source.varyings.len(),
    ensures
        occurs_at(
            stage_result(source, stage, functions, is_vertex)->Ok_0,
            varying_line(source.varyings[earlier], !is_vertex),
            varying_position(source, stage, is_vertex, earlier),
        ),
        occurs_at(
            stage_result(source, stage, functions, is_vertex)->Ok_0,
            varying_line(source.varyings[later], !is_vertex),
            varying_position(source, stage, is_vertex, later),
        ),
        varying_position(source, stage, is_vertex, earlier) + varying_line(
            source.varyings[earlier],
            !is_vertex,
        ).len() <= varying_position(source, stage, is_vertex, later),
{
    let text = stage_result(source, stage, functions, is_vertex)->Ok_0;
    let lines = varying_lines(source.varyings, !is_vertex);
    let before = header_text() + attributes_text(stage.attributes, is_vertex);
    let after = collection_text(source.common_uniforms) + collection_text(
        stage.uniform_collection,
    ) + imported_functions_text(stage.import_fn, functions)->Ok_0 + main_text(stage.main_fn);
    assert(text =~= before + join_lines(lines) + after);
    lemma_line_occurs(lines, earlier);
    lemma_line_occurs(lines, later);
    lemma_lines_in_order(lines, earlier, later);
    let joined = join_lines(lines);
    lemma_occurs_within(before, joined, after, lines[earlier], line_start(lines, earlier));
    lemma_occurs_within(before, joined, after, lines[later], line_start(lines, later));
}

/// Both collections of uniforms stand in the generated text: the shared
/// one, and directly behind it the stage's own.
pub proof fn lemma_collection_occurs(
    source: ShaderSourceView,
    stage: ShaderStageView,
    functions: Seq<FunctionDefinitionView>,
    is_vertex: bool,
    own: bool,
)
    requires
        stage_result(source, stage, functions, is_vertex) is Ok,
    ensures
        occurs_at(
            stage_result(source, stage, functions, is_vertex)->Ok_0,
            collection_text(stage_collection(source, stage, own)),
            collection_position(source, stage, is_vertex, own),
        ),
{
    let text = stage_result(source, stage, functions, is_vertex)->Ok_0;
    let front = header_text() + attributes_text(stage.attributes, is_vertex) + varyings_text(
        source.varyings,
        !is_vertex,
    );
    let back = imported_functions_text(stage.import_fn, functions)->Ok_0 + main_text(
        stage.main_fn,
    );
    let common = collection_text(source.common_uniforms);
    let local = collection_text(stage.uniform_collection);
    if own {
        assert(text =~= (front + common) + local + back);
        assert(occurs_at(local, local, 0)) by {
            assert(local.subrange(0, local.len() as int) =~= local);
        }
        lemma_occurs_within(front + common, local, back, local, 0);
    } else {
        assert(text =~= front + common + (local + back));
        assert(occurs_at(common, common, 0)) by {
            assert(common.subrange(0, common.len() as int) =~= common);
        }
        lemma_occurs_within(front, common, local + back, common, 0);
    }
}

/// The free-standing uniforms of a collection stand in its text in the
/// order of their declaration, behind every block.
pub proof fn lemma_uniforms_keep_order(collection: UniformCollectionView, earlier: int, later: int)
    requires
        0 <= earlier < later < collection.uniforms.len(),
    ensures
        occurs_at(
            collection_text(collection),
            uniform_line(collection.uniforms[earlier]),
            uniform_position(collection, earlier),
        ),
        occurs_at(
            collection_text(collection),
            uniform_line(collection.uniforms[later]),
            uniform_position(collection, later),
        ),
        uniform_position(collection, earlier) + uniform_line(collection.uniforms[earlier]).len()
            <= uniform_position(collection, later),
{
    let lines = uniform_lines(collection.uniforms);
    let before = join_lines(block_texts(collection.uniform_blocks));
    let after = Seq::<char>::empty();
    assert(collection_text(collection) =~= before + join_lines(lines) + after);
    lemma_line_occurs(lines, earlier);
    lemma_line_occurs(lines, later);
    lemma_lines_in_order(lines, earlier, later);
    let joined = join_lines(lines);
    lemma_occurs_within(before, joined, after, lines[earlier], line_start(lines, earlier));
    lemma_occurs_within(before, joined, after, lines[later], line_start(lines, later));
}

/// The members of a uniform block stand in the text of their collection in
/// the order of their declaration.
pub proof fn lemma_block_members_keep_order(
    collection: UniformCollectionView,
    block: int,
    earlier: int,
    later: int,
)
    requires
        0 <= block < collection.uniform_blocks.len(),
        0 <= earlier < later < collection.uniform_blocks[block].uniforms.len(),
    ensures
        occurs_at(
            collection_text(collection),
            member_line(collection.uniform_blocks[block].uniforms[earlier]),
            member_position(collection, block, earlier),
        ),
        occurs_at(
            collection_text(collection),
            member_line(collection.uniform_blocks[block].uniforms[later]),
            member_position(collection, block, later),
        ),
        member_position(collection, block, earlier) + member_line(
            collection.uniform_blocks[block].uniforms[earlier],
        ).len() <= member_position(collection, block, later),
{
    let blocks = block_texts(collection.uniform_blocks);
    let this = collection.uniform_blocks[block];
    let lines = member_lines(this.uniforms);
    lemma_line_occurs(lines, earlier);
    lemma_line_occurs(lines, later);
    lemma_lines_in_order(lines, earlier, later);
    assert(block_text(this) =~= block_opening(this) + join_lines(lines) + block_closing());
    lemma_occurs_within(
        block_opening(this),
        join_lines(lines),
        block_closing(),
        lines[earlier],
        line_start(lines, earlier),
    );
    lemma_occurs_within(
        block_opening(this),
        join_lines(lines),
        block_closing(),
        lines[later],
        line_start(lines, later),
    );
    lemma_line_occurs(blocks, block);
    let start = line_start(blocks, block);
    let free = join_lines(uniform_lines(collection.uniforms));
    let text = collection_text(collection);
    assert(text =~= Seq::<char>::empty() + join_lines(blocks) + free);
    lemma_occurs_within(Seq::<char>::empty(), join_lines(blocks), free, blocks[block], start);
    lemma_part_of_part(
        text,
        blocks[block],
        start,
        lines[earlier],
        block_opening(this).len() + line_start(lines, earlier),
    );
    lemma_part_of_part(
        text,
        blocks[block],
        start,
        lines[later],
        block_opening(this).len() + line_start(lines, later),
    );
}

/// The free-standing uniforms of both collections stand in the generated
/// text of a stage in the order of their declaration.
pub proof fn lemma_stage_uniforms_keep_order(
    source: ShaderSourceView,
    stage: ShaderStageView,
    functions: Seq<FunctionDefinitionView>,
    is_vertex: bool,
    own: bool,
    earlier: int,
    later: int,
)
    requires
        stage_result(source, stage, functions, is_vertex) is Ok,
        0 <= earlier < later < stage_collection(source, stage, own).uniforms.len(),
    ensures
        occurs_at(
            stage_result(source, stage, functions, is_vertex)->Ok_0,
            uniform_line(stage_collection(source, stage, own).uniforms[earlier]),
            collection_position(source, stage, is_vertex, own) + uniform_position(
                stage_collection(source, stage, own),
                earlier,
            ),
        ),
        occurs_at(
            stage_result(source, stage, functions, is_vertex)->Ok_0,
            uniform_line(stage_collection(source, stage, own).uniforms[later]),
            collection_position(source, stage, is_vertex, own) + uniform_position(
                stage_collection(source, stage, own),
                later,
            ),
        ),
        uniform_position(stage_collection(source, stage, own), earlier) + uniform_line(
            stage_collection(source, stage, own).uniforms[earlier],
        ).len() <= uniform_position(stage_collection(source, stage, own), later),
{
    let text = stage_result(source, stage, functions, is_vertex)->Ok_0;
    let collection = stage_collection(source, stage, own);
    let start = collection_position(source, stage, is_vertex, own);
    lemma_collection_occurs(source, stage, functions, is_vertex, own);
    lemma_uniforms_keep_order(collection, earlier, later);
    lemma_part_of_part(
        text,
        collection_text(collection),
        start,
        uniform_line(collection.uniforms[earlier]),
        uniform_position(collection, earlier),
    );
    lemma_part_of_part(
        text,
        collection_text(collection),
        start,
        uniform_line(collection.uniforms[later]),
        uniform_position(collection, later),
    );
}

/// The members of every uniform block stand in the generated text of a
/// stage in the order of their declaration.
pub proof fn lemma_stage_block_members_keep_order(
    source: ShaderSourceView,
    stage: ShaderStageView,
    functions: Seq<FunctionDefinitionView>,
    is_vertex: bool,
    own: bool,
    block: int,
    earlier: int,
    later: int,
)
    requires
        stage_result(source, stage, functions, is_vertex) is Ok,
        0 <= block < stage_collection(source, stage, own).uniform_blocks.len(),
        0 <= earlier < later < stage_collection(
            source,
            stage,
            own,
        ).uniform_blocks[block].uniforms.len(),
    ensures
        occurs_at(
            stage_result(source, stage, functions, is_vertex)->Ok_0,
            member_line(stage_collection(source, stage, own).uniform_blocks[block].uniforms[earlier]),
            collection_position(source, stage, is_vertex, own) + member_position(
                stage_collection(source, stage, own),
                block,
                earlier,
            ),
        ),
        occurs_at(
            stage_result(source, stage, functions, is_vertex)->Ok_0,
            member_line(stage_collection(source, stage, own).uniform_blocks[block].uniforms[later]),
            collection_position(source, stage, is_vertex, own) + member_position(
                stage_collection(source, stage, own),
                block,
                later,
            ),
        ),
        member_position(stage_collection(source, stage, own), block, earlier) + member_line(
            stage_collection(source, stage, own).uniform_blocks[block].uniforms[earlier],
        ).len() <= member_position(stage_collection(source, stage, own), block, later),
{
    let text = stage_result(source, stage, functions, is_vertex)->Ok_0;
    let collection = stage_collection(source, stage, own);
    let start = collection_position(source, stage, is_vertex, own);
    let members = collection.uniform_blocks[block].uniforms;
    lemma_collection_occurs(source, stage, functions, is_vertex, own);
    lemma_block_members_keep_order(collection, block, earlier, later);
    lemma_part_of_part(
        text,
        collection_text(collection),
        start,
        member_line(members[earlier]),
        member_position(collection, block, earlier),
    );
    lemma_part_of_part(
        text,
        collection_text(collection),
        start,
        member_line(members[later]),
        member_position(collection, block, later),
    );
}

/// Every attribute of the stage, every varying, and every uniform of the
/// two collections, free-standing or in a block, is among the declarations
/// of the stage.
pub proof fn lemma_stage_declares(source: ShaderSourceView, stage: ShaderStageView)
    ensures
        forall|i: int|
            0 <= i < stage.attributes.len() ==> stage_declarations(source, stage).contains(
                Declaration {
                    kind: (#[trigger] stage.attributes[i]).kind,
                    name: stage.attributes[i].name,
                },
            ),
        forall|i: int|
            0 <= i < source.varyings.len() ==> stage_declarations(source, stage).contains(
                Declaration {
                    kind: (#[trigger] source.varyings[i]).kind,
                    name: source.varyings[i].name,
                },
            ),
        forall|own: bool, i: int|
            0 <= i < stage_collection(source, stage, own).uniforms.len() ==> stage_declarations(
                source,
                stage,
            ).contains(
                Declaration {
                    kind: (#[trigger] stage_collection(source, stage, own).uniforms[i]).kind,
                    name: stage_collection(source, stage, own).uniforms[i].name,
                },
            ),
        forall|own: bool, b: int, i: int|
            0 <= b < stage_collection(source, stage, own).uniform_blocks.len() && 0 <= i
                < stage_collection(source, stage, own).uniform_blocks[b].uniforms.len()
                ==> stage_declarations(source, stage).contains(
                Declaration {
                    kind: (#[trigger] stage_collection(
                        source,
                        stage,
                        own,
                    ).uniform_blocks[b].uniforms[i]).kind,
                    name: stage_collection(source, stage, own).uniform_blocks[b].uniforms[i].name,
                },
            ),
{
    let all = stage_declarations(source, stage);
    let attributes = attribute_declarations(stage.attributes);
    let varyings = varying_declarations(source.varyings);
    let common = collection_declarations(source.common_uniforms);
    let local = collection_declarations(stage.uniform_collection);
    assert(all == attributes + varyings + common + local);
    assert forall|i: int| 0 <= i < stage.attributes.len() implies all.contains(
        Declaration { kind: (#[trigger] stage.attributes[i]).kind, name: stage.attributes[i].name },
    ) by {
        assert(all[i] == attributes[i]);
    }
    assert forall|i: int| 0 <= i < source.varyings.len() implies all.contains(
        Declaration { kind: (#[trigger] source.varyings[i]).kind, name: source.varyings[i].name },
    ) by {
        assert(all[attributes.len() + i] == varyings[i]);
    }
    assert forall|own: bool, i: int|
        0 <= i < stage_collection(source, stage, own).uniforms.len() implies all.contains(
        Declaration {
            kind: (#[trigger] stage_collection(source, stage, own).uniforms[i]).kind,
            name: stage_collection(source, stage, own).uniforms[i].name,
        },
    ) by {
        let collection = stage_collection(source, stage, own);
        let members = block_member_declarations(collection.uniform_blocks).flatten();
        let free = uniform_declarations(collection.uniforms);
        let within = collection_declarations(collection);
        assert(within[members.len() + i] == free[i]);
        if own {
            assert(all[attributes.len() + varyings.len() + common.len() + members.len() + i]
                == within[members.len() + i]);
        } else {
            assert(all[attributes.len() + varyings.len() + members.len() + i] == within[members.len()
                + i]);
        }
    }
    assert forall|own: bool, b: int, i: int|
        0 <= b < stage_collection(source, stage, own).uniform_blocks.len() && 0 <= i
            < stage_collection(source, stage, own).uniform_blocks[b].uniforms.len() implies all.contains(
        Declaration {
            kind: (#[trigger] stage_collection(source, stage, own).uniform_blocks[b].uniforms[i]).kind,
            name: stage_collection(source, stage, own).uniform_blocks[b].uniforms[i].name,
        },
    ) by {
        let collection = stage_collection(source, stage, own);
        let lists = block_member_declarations(collection.uniform_blocks);
        let within = collection_declarations(collection);
        lemma_flatten_split(lists, b);
        let before = lists.take(b).flatten();
        assert(lists[b][i] == uniform_declarations(collection.uniform_blocks[b].uniforms)[i]);
        assert(within[before.len() + i] == lists[b][i]);
        if own {
            assert(all[attributes.len() + varyings.len() + common.len() + before.len() + i]
                == within[before.len() + i]);
        } else {
            assert(all[attributes.len() + varyings.len() + before.len() + i] == within[before.len()
                + i]);
        }
    }
}

/// A stage that declares a variable of kind `void` is not generated: the
/// outcome is `InvalidType`, whatever else the stage holds.
pub proof fn lemma_void_variable_is_rejected(
    source: ShaderSourceView,
    stage: ShaderStageView,
    functions: Seq<FunctionDefinitionView>,
    is_vertex: bool,
    name: Seq<char>,
)
    requires
        stage_declarations(source, stage).contains(Declaration { kind: WebGLDataType::Void, name }),
    ensures
        stage_result(source, stage, functions, is_vertex) is Err,
        stage_result(source, stage, functions, is_vertex)->Err_0 is InvalidType,
{
    let declarations = stage_declarations(source, stage);
    if first_void(declarations) is None {
        lemma_none_void(declarations);
        let i = choose|i: int|
            0 <= i < declarations.len() && declarations[i] == (Declaration {
                kind: WebGLDataType::Void,
                name,
            });
        assert(declarations[i].kind.declares_variable());
    }
}

/// A function may return `void`: where the resolved functions hold it with
/// its text, a stage that imports it gets that text.
pub proof fn lemma_void_function_is_rendered(
    functions: Seq<FunctionDefinitionView>,
    name: Seq<char>,
    parameters: Seq<char>,
    body: Seq<char>,
)
    requires
        find_by_name(functions, name) is Some,
        find_by_name(functions, name)->0.definition == (FunctionDefinitionTypeView::InlineFn {
            return_type: WebGLDataType::Void,
            parameters,
            body,
        }),
    ensures
        imported_function_text(name, functions) == Ok::<Seq<char>, GenerateErrorView>(
            function_text(
                find_by_name(functions, name)->0.name,
                WebGLDataType::Void,
                parameters,
                body,
            ),
        ),
{
}

} // verus!
