# ip7z

Types and rules for talking to the 7-Zip shared library through its COM-style
interfaces, written in Verus.

- `src/` is the verified library: `HRESULT` codes, `FILETIME` arithmetic,
  `BSTR` strings, `PROPVARIANT` values and their typed conversions, the
  format, codec and interface identifiers, stream seeking, and the state kept
  by the progress and open callbacks. Each public function states what it
  returns in its contract, and the laws that relate functions (round trips,
  distinct identifiers, time shifts that compose) are public proof functions.
- `app/` loads the library, declares the COM interfaces and implements the
  callback objects over the verified state; it holds everything that needs
  raw pointers or the Windows ABI.
- `tests/` runs the library on concrete values.
