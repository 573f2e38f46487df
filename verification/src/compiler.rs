//! The compiler: drives the scanner over one unit of source text,
//! validates the token stream, and emits bytes into a chunk.
//!
//! The expression grammar is this design's extension point and is
//! not implemented yet: compilation scans the first token, demands
//! that it already be the end of the input, and emits the
//! terminating `Return` instruction.

use vstd::prelude::*;

use crate::chunk::Chunk;
use crate::opcode::encode_spec;
use crate::opcode::Opcode;
use crate::tokenizer::lemma_eof_idempotent;
use crate::tokenizer::spec_scan;
use crate::tokenizer::Scanner;
use crate::tokenizer::Token;
use crate::tokenizer::TokenType;
use crate::vm::CompileErr;

verus! {

/// The compiler's working state: the scanner and the pair of the
/// current and the previously consumed token.
struct Parser {
    scanner: Scanner,
    current: Option<Token>,
    previous: Option<Token>,
}

impl Parser {
    spec fn wf(self) -> bool {
        self.scanner.wf()
    }

    /// Shift the token pair one step: the current token becomes the
    /// previous one, and the scanner's next token becomes current.
    /// A lexically invalid token is the `BadToken` error, reported
    /// with the scanner's line.
    fn advance(&mut self) -> (r: Result<(), CompileErr>)
        requires
            old(self).wf(),
        ensures
            final(self).wf(),
            final(self).scanner.source@ == old(self).scanner.source@,
            final(self).previous == old(self).current,
            ({
                let s = spec_scan(
                    old(self).scanner.source@,
                    old(self).scanner.current as int,
                    old(self).scanner.line as int,
                );
                final(self).scanner.current == s.end && final(self).scanner.line == s.line && (
                final(self).current matches Some(t) && t.token_type == s.token_type && t.start
                    == s.start && t.start + t.length == s.end && t.line == s.line) && (s.token_type
                    == TokenType::Error ==> (r matches Err(e) && e == (CompileErr::BadToken {
                    line: s.line as usize,
                }))) && (s.token_type != TokenType::Error ==> r == Ok::<(), CompileErr>(()))
            }),
    {
        self.previous = self.current;
        let token = self.scanner.scan_token();
        let tt = token.token_type;
        self.current = Some(token);
        if tt == TokenType::Error {
            return Err(CompileErr::BadToken { line: self.scanner.line });
        }
        Ok(())
    }

    /// Demand that the current token have the expected kind, and
    /// consume it, making it the previous token and scanning the
    /// next. A mismatch is the `Other` error, carrying the given
    /// message and the scanner's line; a mismatch leaves the state
    /// untouched.
    fn consume(&mut self, expected: TokenType, msg: &'static str) -> (r: Result<(), CompileErr>)
        requires
            old(self).wf(),
        ensures
            final(self).wf(),
            final(self).scanner.source@ == old(self).scanner.source@,
            ({
                let s = spec_scan(
                    old(self).scanner.source@,
                    old(self).scanner.current as int,
                    old(self).scanner.line as int,
                );
                if old(self).current matches Some(t) && t.token_type == expected {
                    final(self).previous == old(self).current && final(self).scanner.current
                        == s.end && final(self).scanner.line == s.line && (
                    final(self).current matches Some(t2) && t2.token_type == s.token_type
                        && t2.line == s.line) && (s.token_type == TokenType::Error ==> (r matches
                        Err(e) && e == (CompileErr::BadToken { line: s.line as usize }))) && (
                    s.token_type != TokenType::Error ==> r == Ok::<(), CompileErr>(()))
                } else {
                    (r matches Err(CompileErr::Other { line, msg: m }) && line == old(
                        self,
                    ).scanner.line && m@ == msg@) && final(self).scanner == old(self).scanner
                        && final(self).current == old(self).current && final(self).previous == old(
                        self,
                    ).previous
                }
            }),
    {
        let matches_expected = match &self.current {
            Some(t) => t.token_type == expected,
            None => false,
        };
        if matches_expected {
            self.advance()
        } else {
            Err(CompileErr::Other { line: self.scanner.line, msg })
        }
    }

    /// Append one byte to the chunk, tagged with the source line of
    /// the most recently consumed token.
    fn emit_byte(&self, chunk: &mut Chunk, byte: u8)
        requires
            old(chunk).wf(),
            self.previous is Some,
        ensures
            final(chunk).wf(),
            final(chunk).code@ == old(chunk).code@.push(byte),
            self.previous matches Some(p) ==> final(chunk).lines@ == old(chunk).lines@.push(p.line),
            final(chunk).constants@ == old(chunk).constants@,
    {
        let line = self.previous.unwrap().line;
        chunk.write(byte, line);
    }

    /// Append two bytes in sequence, both tagged with the source
    /// line of the most recently consumed token: an instruction tag
    /// and its inline operand.
    #[allow(dead_code)]
    fn emit_bytes(&self, chunk: &mut Chunk, a: u8, b: u8)
        requires
            old(chunk).wf(),
            self.previous is Some,
        ensures
            final(chunk).wf(),
            final(chunk).code@ == old(chunk).code@.push(a).push(b),
            self.previous matches Some(p) ==> final(chunk).lines@ == old(chunk).lines@.push(
                p.line,
            ).push(p.line),
            final(chunk).constants@ == old(chunk).constants@,
    {
        self.emit_byte(chunk, a);
        self.emit_byte(chunk, b);
    }

    /// Append the terminating `Return` instruction.
    fn emit_return(&self, chunk: &mut Chunk)
        requires
            old(chunk).wf(),
            self.previous is Some,
        ensures
            final(chunk).wf(),
            final(chunk).code@ == old(chunk).code@.push(encode_spec(Opcode::Return)),
            self.previous matches Some(p) ==> final(chunk).lines@ == old(chunk).lines@.push(p.line),
            final(chunk).constants@ == old(chunk).constants@,
    {
        self.emit_byte(chunk, Opcode::Return.encode());
    }
}

/// Close the compilation by emitting the terminating instruction.
fn end_compiler(parser: &Parser, chunk: &mut Chunk)
    requires
        old(chunk).wf(),
        parser.previous is Some,
    ensures
        final(chunk).wf(),
        final(chunk).code@ == old(chunk).code@.push(encode_spec(Opcode::Return)),
        parser.previous matches Some(p) ==> final(chunk).lines@ == old(chunk).lines@.push(p.line),
        final(chunk).constants@ == old(chunk).constants@,
{
    parser.emit_return(chunk);
}

/// Compile one unit of source text into the chunk, in a single
/// forward pass: scan the first token, demand the end of the input,
/// and emit the terminating `Return` instruction, tagged with the
/// line of the final token. A lexically invalid first token is
/// `BadToken` with its line; any other token before the end of the
/// input is the `Other` error with the scanner's line. On an error
/// the chunk is left unchanged.
pub fn compile(source: Vec<u8>, chunk: &mut Chunk) -> (r: Result<(), CompileErr>)
    requires
        source@.len() < usize::MAX,
        old(chunk).wf(),
    ensures
        final(chunk).wf(),
        final(chunk).constants@ == old(chunk).constants@,
        ({
            let s = spec_scan(source@, 0, 1);
            if s.token_type == TokenType::Error {
                (r matches Err(e) && e == (CompileErr::BadToken { line: s.line as usize }))
                    && final(chunk).code@ == old(chunk).code@ && final(chunk).lines@ == old(
                    chunk,
                ).lines@
            } else if s.token_type == TokenType::Eof {
                r == Ok::<(), CompileErr>(()) && final(chunk).code@ == old(chunk).code@.push(
                    encode_spec(Opcode::Return),
                ) && final(chunk).lines@ == old(chunk).lines@.push(s.line as usize)
            } else {
                (r matches Err(CompileErr::Other { line, msg }) && line == s.line && msg@
                    == "Expected end of expression."@) && final(chunk).code@ == old(chunk).code@
                    && final(chunk).lines@ == old(chunk).lines@
            }
        }),
{
    let ghost src = source@;
    let mut parser = Parser {
        scanner: Scanner::new(source),
        current: None,
        previous: None,
    };
    // Get the scanner started.
    match parser.advance() {
        Ok(()) => {},
        Err(e) => {
            return Err(e);
        },
    }
    // Parsing an expression would go here; the grammar is not
    // implemented yet, so the first token must already be the end.
    // Validate that we are at the end of the source code.
    proof {
        if spec_scan(src, 0, 1).token_type == TokenType::Eof {
            lemma_eof_idempotent(src, 0, 1);
        }
    }
    match parser.consume(TokenType::Eof, "Expected end of expression.") {
        Ok(()) => {},
        Err(e) => {
            return Err(e);
        },
    }
    end_compiler(&parser, chunk);
    Ok(())
}

} // verus!
