# playwright-driver

Where is the Playwright driver on this machine, and how are browsers installed with it? The driver
is a JavaScript program, `cli.js`, which a Deno of the system executes.

`src/` is a library verified with Verus. It holds every decision: which places are tried and in
which order, what is run, and what is reported. It reads no files and starts no programs. A search
or an installation is a value that asks a question (does this file exist, what does this variable
hold, what does this program print) and goes on with the answer.

- `driver`: the search for the driver, made up of those for `cli.js` (`cli`) and Deno (`deno`)
- `install`: the installation of browsers
- `host`: the questions and the answers
- `probe`, `location`: candidates, and the places that they name
- `text`: what programs print
- `laws`: what holds of every search and of every installation

`app/` answers the questions on a real machine.
